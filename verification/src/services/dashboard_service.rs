//! The running statistics behind the dashboards.

use vstd::prelude::*;
use vstd::string::*;
use crate::models::account::AccountId;
use crate::models::dashboard::{
    AdminStatistics,
    ApiQuota,
    BasicInfo,
    CreditInfo,
    DailyStats,
    DataDistribution,
    InstitutionDashboardData,
    InstitutionUsageStats,
    LevelDistribution,
    SubmissionStats,
    SystemStatus,
    TokenInfo,
};
use crate::models::institution::{Institution, InstitutionStatus};
use crate::models::record::{
    record_views,
    CreditRecord,
    CreditRecordView,
    RecordQueryParams,
    RecordStatus,
    RecordType,
};
use crate::services::admin_institution_service::AdminService;
use crate::services::record_service::{record_matches, RecordService};
use crate::utils::principal::{account_text, principal_text};
use crate::utils::seqs::lemma_filter_same;

verus! {

/// Nanoseconds in a day.
pub const DAY_NANOS: u64 = 86_400_000_000_000;

/// The calls an institution may make.
pub const API_QUOTA_LIMIT: u64 = 20000;

/// The start of the day that holds the instant `now`.
pub open spec fn day_start(now: u64) -> u64 {
    (now - now % 86_400_000_000_000) as u64
}

/// The start of the day that holds the instant `now`, both in nanoseconds.
pub fn start_of_day(now: u64) -> (start: u64)
    ensures
        start == day_start(now),
        start <= now,
{
    now - now % DAY_NANOS
}

/// The totals at the start of a day on which `new_institutions` had joined
/// by the instant `now`.
pub open spec fn fresh_day(new_institutions: u64, now: u64) -> DailyStats {
    DailyStats {
        new_institutions,
        api_calls: 0,
        data_uploads: 0,
        token_rewards: 0,
        token_consumption: 0,
        outbound_queries: 0,
        inbound_queries: 0,
        last_update: now,
    }
}

/// How many of the first `n` records are confirmed and of type `kind`.
pub open spec fn confirmed_of_type(records: Seq<CreditRecordView>, kind: RecordType, n: int) -> nat
    decreases n,
{
    if n <= 0 {
        0
    } else {
        let rest = confirmed_of_type(records, kind, n - 1);
        if records[n - 1].status == RecordStatus::Confirmed && records[n - 1].record_type == kind {
            rest + 1
        } else {
            rest
        }
    }
}

/// The confirmed records among `records`, counted by type.
pub open spec fn distribution_of(records: Seq<CreditRecordView>) -> DataDistribution {
    DataDistribution {
        loan_records: confirmed_of_type(records, RecordType::LoanRecord, records.len() as int) as u64,
        repayment_records: confirmed_of_type(
            records,
            RecordType::RepaymentRecord,
            records.len() as int,
        ) as u64,
        notification_records: confirmed_of_type(
            records,
            RecordType::NotificationRecord,
            records.len() as int,
        ) as u64,
    }
}

/// No more than `n` of the first `n` records are counted.
pub proof fn lemma_confirmed_bound(records: Seq<CreditRecordView>, kind: RecordType, n: int)
    requires
        0 <= n,
    ensures
        confirmed_of_type(records, kind, n) <= n,
    decreases n,
{
    if n > 0 {
        lemma_confirmed_bound(records, kind, n - 1);
    }
}

/// The credit level of a score: AAA from 90 to 100, AA from 80, A from 70,
/// BBB from 60, BB from 50, and C below that and above one hundred.
pub open spec fn credit_level(score: u64) -> Seq<char> {
    if 90 <= score <= 100 {
        "AAA"@
    } else if 80 <= score <= 89 {
        "AA"@
    } else if 70 <= score <= 79 {
        "A"@
    } else if 60 <= score <= 69 {
        "BBB"@
    } else if 50 <= score <= 59 {
        "BB"@
    } else {
        "C"@
    }
}

/// How many of the first `n` institutions have a score from `low` to `high`.
pub open spec fn scored_between(institutions: Seq<Institution>, low: u64, high: u64, n: int) -> nat
    decreases n,
{
    if n <= 0 {
        0
    } else {
        let score = institutions[n - 1].credit_score.score;
        scored_between(institutions, low, high, n - 1) + if low <= score <= high {
            1nat
        } else {
            0nat
        }
    }
}

/// How many of the first `n` institutions are active.
pub open spec fn active_among(institutions: Seq<Institution>, n: int) -> nat
    decreases n,
{
    if n <= 0 {
        0
    } else {
        active_among(institutions, n - 1) + if institutions[n - 1].status
            == InstitutionStatus::Active {
            1nat
        } else {
            0nat
        }
    }
}

/// What the first `n` institutions have consumed together; the sum stops at
/// the largest value it can hold.
pub open spec fn consumed_by(institutions: Seq<Institution>, n: int) -> u64
    decreases n,
{
    if n <= 0 {
        0
    } else {
        consumed_by(institutions, n - 1).saturating_add(institutions[n - 1].dcc_consumed)
    }
}

/// Today's totals and the call quota.
pub struct DashboardService {
    daily_stats: DailyStats,
    api_quota_limit: u64,
}

impl DashboardService {
    /// Today's totals.
    pub closed spec fn daily_stats(&self) -> DailyStats {
        self.daily_stats
    }

    /// The calls an institution may make.
    pub closed spec fn api_quota_limit(&self) -> u64 {
        self.api_quota_limit
    }

    /// A service with empty totals and a quota of 20000 calls.
    pub fn new() -> (service: Self)
        ensures
            service.daily_stats() == fresh_day(0, 0),
            service.api_quota_limit() == 20000,
    {
        DashboardService {
            daily_stats: DailyStats {
                new_institutions: 0,
                api_calls: 0,
                data_uploads: 0,
                token_rewards: 0,
                token_consumption: 0,
                outbound_queries: 0,
                inbound_queries: 0,
                last_update: 0,
            },
            api_quota_limit: API_QUOTA_LIMIT,
        }
    }

    /// Today's totals.
    pub fn stats(&self) -> (stats: DailyStats)
        ensures
            stats == self.daily_stats(),
    {
        self.daily_stats
    }

    /// Adds to today's token rewards and consumption; each total stops at the
    /// largest value it can hold.
    pub fn update_token_stats(&mut self, rewards: u64, consumption: u64)
        ensures
            final(self).api_quota_limit() == old(self).api_quota_limit(),
            final(self).daily_stats() == (DailyStats {
                token_rewards: old(self).daily_stats().token_rewards.saturating_add(rewards),
                token_consumption: old(self).daily_stats().token_consumption.saturating_add(
                    consumption,
                ),
                ..old(self).daily_stats()
            }),
    {
        self.daily_stats.token_rewards = self.daily_stats.token_rewards.saturating_add(rewards);
        self.daily_stats.token_consumption = self.daily_stats.token_consumption.saturating_add(
            consumption,
        );
    }

    /// Starts a new day when the totals were last reset before the day that
    /// holds `now`: every total goes back to zero but the count of
    /// institutions that joined today, which is given. Within the same day
    /// nothing changes.
    pub fn update_daily_stats(&mut self, now: u64, new_institutions: u64)
        ensures
            final(self).api_quota_limit() == old(self).api_quota_limit(),
            final(self).daily_stats() == if old(self).daily_stats().last_update < day_start(now) {
                fresh_day(new_institutions, now)
            } else {
                old(self).daily_stats()
            },
    {
        let today_start = start_of_day(now);
        if self.daily_stats.last_update < today_start {
            self.daily_stats = DailyStats {
                new_institutions,
                api_calls: 0,
                data_uploads: 0,
                token_rewards: 0,
                token_consumption: 0,
                outbound_queries: 0,
                inbound_queries: 0,
                last_update: now,
            };
        }
    }

    /// Counts the confirmed records among `records` by type.
    pub fn calculate_data_distribution(&self, records: &Vec<CreditRecord>) -> (distribution:
        DataDistribution)
        ensures
            distribution == distribution_of(record_views(records@)),
    {
        let ghost views = record_views(records@);
        let mut distribution = DataDistribution {
            loan_records: 0,
            repayment_records: 0,
            notification_records: 0,
        };
        let mut i: usize = 0;
        while i < records.len()
            invariant
                views == record_views(records@),
                0 <= i <= records@.len(),
                distribution.loan_records == confirmed_of_type(
                    views,
                    RecordType::LoanRecord,
                    i as int,
                ),
                distribution.repayment_records == confirmed_of_type(
                    views,
                    RecordType::RepaymentRecord,
                    i as int,
                ),
                distribution.notification_records == confirmed_of_type(
                    views,
                    RecordType::NotificationRecord,
                    i as int,
                ),
            decreases records@.len() - i,
        {
            proof {
                lemma_confirmed_bound(views, RecordType::LoanRecord, i as int);
                lemma_confirmed_bound(views, RecordType::RepaymentRecord, i as int);
                lemma_confirmed_bound(views, RecordType::NotificationRecord, i as int);
                assert(views[i as int] == records@[i as int]@);
            }
            if records[i].status == RecordStatus::Confirmed {
                match records[i].record_type {
                    RecordType::LoanRecord => {
                        distribution.loan_records = distribution.loan_records + 1;
                    },
                    RecordType::RepaymentRecord => {
                        distribution.repayment_records = distribution.repayment_records + 1;
                    },
                    RecordType::NotificationRecord => {
                        distribution.notification_records = distribution.notification_records + 1;
                    },
                }
            }
            i += 1;
        }
        distribution
    }

    /// What an institution sees on its dashboard. The data quality score is
    /// given by the caller. Fails with "机构不存在" for an unregistered
    /// institution.
    pub fn get_institution_dashboard(
        &self,
        registry: &AdminService,
        records: &RecordService,
        institution_id: &AccountId,
        data_quality_score: u64,
    ) -> (out: Result<InstitutionDashboardData, String>)
        requires
            registry.wf(),
            records.wf(),
            institution_id@.len() <= 29,
        ensures
            out is Ok <==> registry.institutions().contains_key(institution_id@),
            out is Err ==> out->Err_0@ == "机构不存在"@,
            out is Ok ==> {
                let inst = registry.institutions()[institution_id@];
                let own = records.records().filter(
                    |r: CreditRecordView| r.institution_id == institution_id@,
                );
                let data = out->Ok_0;
                &&& data.basic_info.name@ == inst.name
                &&& data.basic_info.id@ == principal_text(institution_id@)
                &&& data.basic_info.status == inst.status
                &&& data.basic_info.join_time == inst.join_time
                &&& data.basic_info.credit_level@ == credit_level(inst.credit_score.score)
                &&& data.basic_info.credit_score == inst.credit_score.score
                &&& data.submission_stats == (SubmissionStats {
                    today_submissions: own.len() as u64,
                    monthly_submissions: 0,
                    total_submissions: inst.data_uploads,
                    submission_distribution: distribution_of(own),
                })
                &&& data.usage_stats == (InstitutionUsageStats {
                    query_others: inst.outbound_queries,
                    queried_by_others: inst.inbound_queries,
                    today_query_others: own.len() as u64,
                    today_queried_by_others: 0,
                    monthly_queries: 0,
                    total_queries: inst.api_calls,
                    api_quota: ApiQuota { used: inst.api_calls, total: self.api_quota_limit() },
                })
                &&& data.token_info == (TokenInfo {
                    balance: inst.token_trading.bought.saturating_sub(inst.token_trading.sold),
                    total_spent: inst.token_trading.sold,
                    today_spent: self.daily_stats().token_consumption,
                    total_reward: inst.token_trading.bought,
                    today_reward: self.daily_stats().token_rewards,
                    monthly_earned: 0,
                    monthly_spent: 0,
                })
                &&& data.credit_info.credit_score == inst.credit_score.score
                &&& data.credit_info.credit_level@ == credit_level(inst.credit_score.score)
                &&& data.credit_info.data_quality_score == data_quality_score
                &&& data.system_status.api_health
                &&& !data.system_status.has_announcement
                &&& data.system_status.last_update_time == self.daily_stats().last_update
                &&& data.system_status.system_version@ == "1.0.0"@
            },
    {
        let institution = match registry.get_institution(institution_id) {
            Some(inst) => inst,
            None => {
                return Err(String::from_str("机构不存在"));
            },
        };
        let params = RecordQueryParams {
            institution_id: Some(institution_id.clone()),
            user_did: None,
            record_type: None,
            start_date: None,
            end_date: None,
            status: None,
        };
        let ghost by_params = |r: CreditRecordView| record_matches(r, params);
        let ghost by_owner = |r: CreditRecordView| r.institution_id == institution_id@;
        let own = records.query_records(params);
        proof {
            lemma_filter_same(records.records(), by_params, by_owner);
        }
        let own_count = own.len() as u64;
        let distribution = self.calculate_data_distribution(&own);
        Ok(
            InstitutionDashboardData {
                basic_info: BasicInfo {
                    name: institution.name.clone(),
                    id: account_text(institution_id.as_bytes()),
                    status: institution.status,
                    join_time: institution.join_time,
                    credit_level: self.get_credit_level(&institution),
                    credit_score: institution.credit_score.score,
                },
                submission_stats: SubmissionStats {
                    today_submissions: own_count,
                    monthly_submissions: 0,
                    total_submissions: institution.data_uploads,
                    submission_distribution: distribution,
                },
                usage_stats: InstitutionUsageStats {
                    query_others: institution.outbound_queries,
                    queried_by_others: institution.inbound_queries,
                    today_query_others: own_count,
                    today_queried_by_others: 0,
                    monthly_queries: 0,
                    total_queries: institution.api_calls,
                    api_quota: ApiQuota {
                        used: institution.api_calls,
                        total: self.api_quota_limit,
                    },
                },
                token_info: TokenInfo {
                    balance: institution.token_trading.bought.saturating_sub(
                        institution.token_trading.sold,
                    ),
                    total_spent: institution.token_trading.sold,
                    today_spent: self.daily_stats.token_consumption,
                    total_reward: institution.token_trading.bought,
                    today_reward: self.daily_stats.token_rewards,
                    monthly_earned: 0,
                    monthly_spent: 0,
                },
                credit_info: CreditInfo {
                    credit_score: institution.credit_score.score,
                    credit_level: self.get_credit_level(&institution),
                    data_quality_score,
                },
                system_status: SystemStatus {
                    api_health: true,
                    has_announcement: false,
                    last_update_time: self.daily_stats.last_update,
                    system_version: String::from_str("1.0.0"),
                },
            },
        )
    }

    /// The credit level of an institution.
    pub fn get_credit_level(&self, institution: &Institution) -> (level: String)
        ensures
            level@ == credit_level(institution.credit_score.score),
    {
        let score = institution.credit_score.score;
        let text = if 90 <= score && score <= 100 {
            "AAA"
        } else if 80 <= score && score <= 89 {
            "AA"
        } else if 70 <= score && score <= 79 {
            "A"
        } else if 60 <= score && score <= 69 {
            "BBB"
        } else if 50 <= score && score <= 59 {
            "BB"
        } else {
            "C"
        };
        String::from_str(text)
    }

    /// Counts institutions by credit level.
    pub fn calculate_level_distribution(&self, institutions: &Vec<Institution>) -> (levels:
        LevelDistribution)
        ensures
            ({
                let n = institutions@.len() as int;
                &&& levels.aaa_count == scored_between(institutions@, 90, 100, n)
                &&& levels.aa_count == scored_between(institutions@, 80, 89, n)
                &&& levels.a_count == scored_between(institutions@, 70, 79, n)
                &&& levels.bbb_count == scored_between(institutions@, 60, 69, n)
                &&& levels.bb_count == scored_between(institutions@, 50, 59, n)
                &&& levels.other_count == n - levels.aaa_count - levels.aa_count - levels.a_count
                    - levels.bbb_count - levels.bb_count
            }),
    {
        let mut levels = LevelDistribution {
            aaa_count: 0,
            aa_count: 0,
            a_count: 0,
            bbb_count: 0,
            bb_count: 0,
            other_count: 0,
        };
        let mut i: usize = 0;
        while i < institutions.len()
            invariant
                0 <= i <= institutions@.len(),
                levels.aaa_count == scored_between(institutions@, 90, 100, i as int),
                levels.aa_count == scored_between(institutions@, 80, 89, i as int),
                levels.a_count == scored_between(institutions@, 70, 79, i as int),
                levels.bbb_count == scored_between(institutions@, 60, 69, i as int),
                levels.bb_count == scored_between(institutions@, 50, 59, i as int),
                levels.other_count == i - levels.aaa_count - levels.aa_count - levels.a_count
                    - levels.bbb_count - levels.bb_count,
            decreases institutions@.len() - i,
        {
            let score = institutions[i].credit_score.score;
            if 90 <= score && score <= 100 {
                levels.aaa_count = levels.aaa_count + 1;
            } else if 80 <= score && score <= 89 {
                levels.aa_count = levels.aa_count + 1;
            } else if 70 <= score && score <= 79 {
                levels.a_count = levels.a_count + 1;
            } else if 60 <= score && score <= 69 {
                levels.bbb_count = levels.bbb_count + 1;
            } else if 50 <= score && score <= 59 {
                levels.bb_count = levels.bb_count + 1;
            } else {
                levels.other_count = levels.other_count + 1;
            }
            i += 1;
        }
        levels
    }

    /// Counts the institutions, the active ones among them, and what they
    /// have consumed together.
    pub fn get_statistics(institutions: &Vec<Institution>) -> (stats: AdminStatistics)
        ensures
            stats.total_institutions == institutions@.len(),
            stats.active_institutions == active_among(institutions@, institutions@.len() as int),
            stats.total_dcc_consumed == consumed_by(institutions@, institutions@.len() as int),
    {
        let mut active: u64 = 0;
        let mut consumed: u64 = 0;
        let mut i: usize = 0;
        while i < institutions.len()
            invariant
                0 <= i <= institutions@.len(),
                active == active_among(institutions@, i as int),
                active <= i,
                consumed == consumed_by(institutions@, i as int),
            decreases institutions@.len() - i,
        {
            if institutions[i].status == InstitutionStatus::Active {
                active = active + 1;
            }
            consumed = consumed.saturating_add(institutions[i].dcc_consumed);
            i += 1;
        }
        AdminStatistics {
            total_institutions: institutions.len() as u64,
            active_institutions: active,
            total_dcc_consumed: consumed,
        }
    }
}

} // verus!
