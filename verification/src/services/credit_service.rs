//! Deductions from the credit scores of institutions, and the counts of
//! records by status.

use vstd::prelude::*;
use vstd::string::*;
use crate::models::account::AccountId;
use crate::models::institution::InstitutionView;
use crate::models::record::{
    CreateCreditRecordRequest,
    CreditDeductionRecord,
    CreditDeductionRecordView,
    CreditRecordView,
    RecordStatistics,
    RecordStatus,
};
use crate::services::admin_institution_service::{with_score, AdminService};
use crate::services::record_service::RecordService;
use crate::utils::keyed::VecMap;
use crate::utils::seqs::{lemma_filter_take_step, lemma_take_all};
use crate::utils::text::{decimal_text, join, u64_to_decimal};

verus! {

/// Nanoseconds in a second.
pub const SECOND_NANOS: u64 = 1_000_000_000;

/// Decimal text of a number, with leading zeros up to three digits.
pub open spec fn padded3(n: nat) -> Seq<char> {
    if n < 10 {
        "00"@ + decimal_text(n)
    } else if n < 100 {
        "0"@ + decimal_text(n)
    } else {
        decimal_text(n)
    }
}

/// The reference of the deduction that is made at time `now` as number
/// `serial`: "CR", the time in seconds, and the number on three digits at
/// least.
pub open spec fn deduction_reference(now: u64, serial: u64) -> Seq<char> {
    "CR"@ + decimal_text((now / 1_000_000_000) as nat) + padded3(serial as nat)
}

/// Why a deduction is refused, if it is.
pub open spec fn deduction_refusal(
    institutions: Map<Seq<u8>, InstitutionView>,
    institution: Seq<u8>,
    points: u32,
) -> Option<Seq<char>> {
    if !institutions.contains_key(institution) {
        Some("Institution does not exist"@)
    } else {
        let score = institutions[institution].credit_score.score;
        if score < points {
            Some(
                "Deduction points ("@ + decimal_text(points as nat)
                    + ") exceed current credit score ("@ + decimal_text(score as nat) + ")"@,
            )
        } else if score - points > 100 {
            Some("Failed to update credit score: 信用分数不能超过100"@)
        } else {
            None
        }
    }
}

/// The views of a list of deductions, in order.
pub open spec fn deduction_views(records: Seq<CreditDeductionRecord>) -> Seq<
    CreditDeductionRecordView,
> {
    records.map_values(|r: CreditDeductionRecord| r@)
}

/// The number that the next deduction gets, after `made` deductions.
pub open spec fn next_serial(made: nat) -> u64 {
    if made + 1 > u64::MAX {
        u64::MAX
    } else {
        (made + 1) as u64
    }
}

/// How many of the first `n` records have the given status.
pub open spec fn count_status(records: Seq<CreditRecordView>, status: RecordStatus, n: int) -> nat
    decreases n,
{
    if n <= 0 {
        0
    } else {
        count_status(records, status, n - 1) + if records[n - 1].status == status {
            1nat
        } else {
            0nat
        }
    }
}

/// The rewards of the first `n` records together; the sum stops at the
/// largest value it can hold.
pub open spec fn total_rewards(records: Seq<CreditRecordView>, n: int) -> u64
    decreases n,
{
    if n <= 0 {
        0
    } else {
        match records[n - 1].reward_amount {
            Some(amount) => total_rewards(records, n - 1).saturating_add(amount),
            None => total_rewards(records, n - 1),
        }
    }
}

/// No more than `n` of the first `n` records are counted.
pub proof fn lemma_count_bound(records: Seq<CreditRecordView>, status: RecordStatus, n: int)
    requires
        0 <= n,
    ensures
        count_status(records, status, n) <= n,
    decreases n,
{
    if n > 0 {
        lemma_count_bound(records, status, n - 1);
    }
}

/// The query tokens an institution starts with.
pub const INITIAL_QUERY_TOKENS: u64 = 100;

/// The query tokens an institution holds: a hundred until it has spent any.
pub open spec fn tokens_of(tokens: Map<Seq<u8>, u64>, institution: Seq<u8>) -> u64 {
    if tokens.contains_key(institution) {
        tokens[institution]
    } else {
        100
    }
}

/// The deductions made so far, and the query tokens of the institutions.
pub struct CreditService {
    deduction_records: Vec<CreditDeductionRecord>,
    institution_tokens: VecMap<AccountId, u64>,
}

impl CreditService {
    /// The deductions, oldest first.
    pub closed spec fn deductions(&self) -> Seq<CreditDeductionRecordView> {
        deduction_views(self.deduction_records@)
    }

    /// The query tokens of the institutions that have spent any.
    pub closed spec fn tokens(&self) -> Map<Seq<u8>, u64> {
        self.institution_tokens@
    }

    /// The token balances are well formed.
    pub closed spec fn wf(&self) -> bool {
        self.institution_tokens.wf()
    }

    /// A service without deductions, in which no institution has spent a
    /// token.
    pub fn new() -> (service: Self)
        ensures
            service.wf(),
            service.deductions() == Seq::<CreditDeductionRecordView>::empty(),
            service.tokens() == Map::<Seq<u8>, u64>::empty(),
    {
        let service = CreditService {
            deduction_records: Vec::new(),
            institution_tokens: VecMap::new(),
        };
        assert(service.deductions() =~= Seq::<CreditDeductionRecordView>::empty());
        assert(service.tokens() =~= Map::<Seq<u8>, u64>::empty());
        service
    }

    /// Spends one query token of an institution. Fails with "代币余额不足"
    /// where the institution has none left; it is then noted with a balance
    /// of zero.
    pub fn deduct_token(&mut self, institution_id: &AccountId) -> (out: Result<bool, String>)
        requires
            old(self).wf(),
        ensures
            final(self).wf(),
            final(self).deductions() == old(self).deductions(),
            out is Ok <==> tokens_of(old(self).tokens(), institution_id@) > 0,
            out is Ok ==> out->Ok_0,
            out is Err ==> out->Err_0@ == "代币余额不足"@,
            final(self).tokens() == old(self).tokens().insert(
                institution_id@,
                if tokens_of(old(self).tokens(), institution_id@) > 0 {
                    (tokens_of(old(self).tokens(), institution_id@) - 1) as u64
                } else {
                    0
                },
            ),
    {
        let held = match self.institution_tokens.get(institution_id) {
            Some(tokens) => *tokens,
            None => INITIAL_QUERY_TOKENS,
        };
        if held == 0 {
            self.institution_tokens.insert(institution_id.clone(), 0);
            return Err(String::from_str("代币余额不足"));
        }
        self.institution_tokens.insert(institution_id.clone(), held - 1);
        Ok(true)
    }

    /// Deducts points from the credit score of an institution and records
    /// the deduction, made by `operator` at time `now`.
    ///
    /// Fails, and changes nothing, where the institution is not registered,
    /// where the points exceed its score, and where the score that is left
    /// exceeds one hundred. Otherwise the score goes down by the points and
    /// the deduction is recorded under the next number.
    pub fn create_deduction_record(
        &mut self,
        registry: &mut AdminService,
        operator: &AccountId,
        request: CreateCreditRecordRequest,
        now: u64,
    ) -> (out: Result<CreditDeductionRecord, String>)
        requires
            old(self).wf(),
            old(registry).wf(),
        ensures
            final(self).wf(),
            final(self).tokens() == old(self).tokens(),
            final(registry).wf(),
            final(registry).order() == old(registry).order(),
            final(registry).names() == old(registry).names(),
            final(registry).registered_by() == old(registry).registered_by(),
            match deduction_refusal(
                old(registry).institutions(),
                request.institution_id@,
                request.deduction_points,
            ) {
                Some(reason) => {
                    &&& out is Err
                    &&& out->Err_0@ == reason
                    &&& final(self).deductions() == old(self).deductions()
                    &&& final(registry).institutions() == old(registry).institutions()
                },
                None => {
                    let inst = old(registry).institutions()[request.institution_id@];
                    let serial = next_serial(old(self).deductions().len());
                    &&& out is Ok
                    &&& out->Ok_0@ == (CreditDeductionRecordView {
                        id: decimal_text(serial as nat),
                        record_id: deduction_reference(now, serial),
                        institution_id: request.institution_id@,
                        institution_name: inst.name,
                        deduction_points: request.deduction_points,
                        reason: request.reason@,
                        data_quality_issue: request.data_quality_issue@,
                        created_at: now,
                        operator_id: operator@,
                        operator_name: "Administrator"@,
                    })
                    &&& final(self).deductions() == old(self).deductions().push(out->Ok_0@)
                    &&& final(registry).institutions() == old(registry).institutions().insert(
                        request.institution_id@,
                        with_score(
                            inst,
                            (inst.credit_score.score - request.deduction_points) as u64,
                            now,
                        ),
                    )
                },
            },
    {
        let institution = match registry.get_institution(&request.institution_id) {
            Some(inst) => inst,
            None => {
                return Err(String::from_str("Institution does not exist"));
            },
        };
        let current_score = institution.credit_score.score;
        let points: u64 = request.deduction_points as u64;
        if current_score < points {
            let points_text = u64_to_decimal(points);
            let score_text = u64_to_decimal(current_score);
            let mut message = join("Deduction points (", points_text.as_str());
            message.append(") exceed current credit score (");
            message.append(score_text.as_str());
            message.append(")");
            return Err(message);
        }
        let new_score = current_score - points;
        match registry.update_credit_score(&request.institution_id, new_score, now) {
            Ok(_) => {},
            Err(e) => {
                let message = join("Failed to update credit score: ", e.as_str());
                proof {
                    reveal_strlit("Failed to update credit score: ");
                    reveal_strlit("信用分数不能超过100");
                    reveal_strlit("Failed to update credit score: 信用分数不能超过100");
                    assert(message@ =~= "Failed to update credit score: 信用分数不能超过100"@);
                }
                return Err(message);
            },
        }
        let made = self.deduction_records.len();
        let serial: u64 = if made as u64 == u64::MAX {
            u64::MAX
        } else {
            made as u64 + 1
        };
        let serial_text = u64_to_decimal(serial);
        let seconds_text = u64_to_decimal(now / SECOND_NANOS);
        let mut reference = join("CR", seconds_text.as_str());
        if serial < 10 {
            reference.append("00");
        } else if serial < 100 {
            reference.append("0");
        }
        reference.append(serial_text.as_str());
        proof {
            reveal_strlit("00");
            reveal_strlit("0");
            assert(reference@ =~= deduction_reference(now, serial));
        }
        let record = CreditDeductionRecord {
            id: serial_text,
            record_id: reference,
            institution_id: request.institution_id,
            institution_name: institution.name,
            deduction_points: request.deduction_points,
            reason: request.reason,
            data_quality_issue: request.data_quality_issue,
            created_at: now,
            operator_id: operator.clone(),
            operator_name: String::from_str("Administrator"),
        };
        let copy = record.clone();
        self.deduction_records.push(record);
        assert(self.deductions() =~= old(self).deductions().push(copy@));
        Ok(copy)
    }

    /// The deductions from the score of one institution, or all deductions
    /// where none is named, oldest first.
    pub fn get_deduction_records(&self, institution_id: Option<&AccountId>) -> (found: Vec<
        CreditDeductionRecord,
    >)
        ensures
            deduction_views(found@) == match institution_id {
                Some(id) => self.deductions().filter(
                    |r: CreditDeductionRecordView| r.institution_id == id@,
                ),
                None => self.deductions(),
            },
    {
        let ghost all = self.deductions();
        let ghost wanted = |r: CreditDeductionRecordView|
            match institution_id {
                Some(id) => r.institution_id == id@,
                None => true,
            };
        let mut found: Vec<CreditDeductionRecord> = Vec::new();
        let mut i: usize = 0;
        proof {
            reveal(Seq::filter);
            assert(all.take(0) =~= Seq::<CreditDeductionRecordView>::empty());
            assert(deduction_views(found@) =~= all.take(0).filter(wanted));
        }
        while i < self.deduction_records.len()
            invariant
                all == self.deductions(),
                all.len() == self.deduction_records@.len(),
                wanted == (|r: CreditDeductionRecordView|
                    match institution_id {
                        Some(id) => r.institution_id == id@,
                        None => true,
                    }),
                0 <= i <= self.deduction_records@.len(),
                deduction_views(found@) == all.take(i as int).filter(wanted),
            decreases self.deduction_records@.len() - i,
        {
            let record = &self.deduction_records[i];
            proof {
                lemma_filter_take_step(all, wanted, i as int);
                assert(all[i as int] == record@);
            }
            let keep = match institution_id {
                Some(id) => record.institution_id == *id,
                None => true,
            };
            if keep {
                let ghost before = found@;
                found.push(record.clone());
                assert(deduction_views(found@) =~= deduction_views(before).push(record@));
            }
            i += 1;
        }
        proof {
            lemma_take_all(all);
            match institution_id {
                Some(id) => {
                    assert(wanted == (|r: CreditDeductionRecordView| r.institution_id == id@));
                },
                None => {
                    crate::utils::seqs::lemma_filter_everything(all, wanted);
                },
            }
        }
        found
    }
}

impl RecordService {
    /// The counts of records by status, and their rewards together: of one
    /// institution's records, or of all records where none is named. Never
    /// fails.
    pub fn get_record_statistics(&self, institution_id: Option<&AccountId>) -> (out: Result<
        RecordStatistics,
        String,
    >)
        requires
            self.wf(),
        ensures
            out is Ok,
            ({
                let counted = match institution_id {
                    Some(id) => self.records().filter(|r: CreditRecordView| r.institution_id == id@),
                    None => self.records(),
                };
                let n = counted.len() as int;
                &&& out->Ok_0.total_records == n
                &&& out->Ok_0.pending_records == count_status(counted, RecordStatus::Pending, n)
                &&& out->Ok_0.confirmed_records == count_status(
                    counted,
                    RecordStatus::Confirmed,
                    n,
                )
                &&& out->Ok_0.rejected_records == count_status(counted, RecordStatus::Rejected, n)
                &&& out->Ok_0.total_rewards == total_rewards(counted, n)
            }),
    {
        let ghost all = self.records();
        let ghost wanted = |r: CreditRecordView|
            match institution_id {
                Some(id) => r.institution_id == id@,
                None => true,
            };
        let n = self.record_count();
        let mut total: u64 = 0;
        let mut pending: u64 = 0;
        let mut confirmed: u64 = 0;
        let mut rejected: u64 = 0;
        let mut rewards: u64 = 0;
        let mut i: usize = 0;
        proof {
            reveal(Seq::filter);
            assert(all.take(0) =~= Seq::<CreditRecordView>::empty());
        }
        while i < n
            invariant
                self.wf(),
                all == self.records(),
                n == all.len(),
                wanted == (|r: CreditRecordView|
                    match institution_id {
                        Some(id) => r.institution_id == id@,
                        None => true,
                    }),
                0 <= i <= n,
                total == all.take(i as int).filter(wanted).len(),
                total <= i,
                pending == count_status(
                    all.take(i as int).filter(wanted),
                    RecordStatus::Pending,
                    total as int,
                ),
                confirmed == count_status(
                    all.take(i as int).filter(wanted),
                    RecordStatus::Confirmed,
                    total as int,
                ),
                rejected == count_status(
                    all.take(i as int).filter(wanted),
                    RecordStatus::Rejected,
                    total as int,
                ),
                rewards == total_rewards(all.take(i as int).filter(wanted), total as int),
            decreases n - i,
        {
            let record = self.record_at(i);
            let ghost before = all.take(i as int).filter(wanted);
            proof {
                lemma_filter_take_step(all, wanted, i as int);
                lemma_count_bound(before, RecordStatus::Pending, total as int);
                lemma_count_bound(before, RecordStatus::Confirmed, total as int);
                lemma_count_bound(before, RecordStatus::Rejected, total as int);
            }
            let keep = match institution_id {
                Some(id) => record.institution_id == *id,
                None => true,
            };
            if keep {
                proof {
                    let after = before.push(record@);
                    lemma_counts_extend(before, after, RecordStatus::Pending, total as int);
                    lemma_counts_extend(before, after, RecordStatus::Confirmed, total as int);
                    lemma_counts_extend(before, after, RecordStatus::Rejected, total as int);
                    lemma_rewards_extend(before, after, total as int);
                }
                total = total + 1;
                match record.status {
                    RecordStatus::Pending => {
                        pending = pending + 1;
                    },
                    RecordStatus::Confirmed => {
                        confirmed = confirmed + 1;
                    },
                    RecordStatus::Rejected => {
                        rejected = rejected + 1;
                    },
                }
                match record.reward_amount {
                    Some(amount) => {
                        rewards = rewards.saturating_add(amount);
                    },
                    None => {},
                }
            }
            i += 1;
        }
        proof {
            lemma_take_all(all);
            match institution_id {
                Some(id) => {
                    assert(wanted == (|r: CreditRecordView| r.institution_id == id@));
                },
                None => {
                    crate::utils::seqs::lemma_filter_everything(all, wanted);
                },
            }
        }
        Ok(
            RecordStatistics {
                total_records: total,
                pending_records: pending,
                confirmed_records: confirmed,
                rejected_records: rejected,
                total_rewards: rewards,
            },
        )
    }
}

/// The count over a prefix is the same in a longer list.
proof fn lemma_counts_extend(
    before: Seq<CreditRecordView>,
    after: Seq<CreditRecordView>,
    status: RecordStatus,
    n: int,
)
    requires
        0 <= n <= before.len(),
        before.len() <= after.len(),
        forall|k: int| 0 <= k < before.len() ==> before[k] == after[k],
    ensures
        count_status(after, status, n) == count_status(before, status, n),
    decreases n,
{
    if n > 0 {
        lemma_counts_extend(before, after, status, n - 1);
    }
}

/// The rewards of a prefix are the same in a longer list.
proof fn lemma_rewards_extend(before: Seq<CreditRecordView>, after: Seq<CreditRecordView>, n: int)
    requires
        0 <= n <= before.len(),
        before.len() <= after.len(),
        forall|k: int| 0 <= k < before.len() ==> before[k] == after[k],
    ensures
        total_rewards(after, n) == total_rewards(before, n),
    decreases n,
{
    if n > 0 {
        lemma_rewards_extend(before, after, n - 1);
    }
}

} // verus!
