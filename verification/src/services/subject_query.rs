//! Queries by subject: every readable record about one subject is served to
//! an institution, which owes the owners of the records of others their
//! query price.

use vstd::prelude::*;
use vstd::string::*;
use crate::models::account::AccountId;
use crate::models::institution::InstitutionView;
use crate::models::record::{
    record_views,
    settlement_for,
    settlement_views,
    CreditRecord,
    CreditRecordView,
    InstitutionRecordResponse,
    TokenOperation,
    TokenOperationView,
};
use crate::services::admin_institution_service::{
    after_inbound_query,
    after_outbound_query,
    changed,
    AdminService,
};
use crate::services::record_service::{accessible, same_registry_but_institutions, RecordService};
use crate::services::storage_service::StorageService;
use crate::utils::seqs::{lemma_filter_prefix, lemma_filter_take_step, lemma_take_all};

verus! {

/// What a query by subject hands back: the records, each at the price the
/// reader owes for it, and the settlements that have fallen due.
#[derive(Debug)]
pub struct SubjectRecords {
    pub records: Vec<CreditRecord>,
    pub settlements: Vec<TokenOperation>,
}

/// Whether a record is about `subject` and its payload can still be read.
pub open spec fn is_candidate(
    record: CreditRecordView,
    subject: Seq<char>,
    chain: Map<Seq<char>, (Seq<char>, Seq<u8>)>,
    stored: Map<Seq<char>, Seq<u8>>,
) -> bool {
    record.user_did == subject && accessible(chain, stored, record.id)
}

/// The records about `subject` whose payload can still be read, in record
/// order.
pub open spec fn candidates(
    records: Seq<CreditRecordView>,
    subject: Seq<char>,
    chain: Map<Seq<char>, (Seq<char>, Seq<u8>)>,
    stored: Map<Seq<char>, Seq<u8>>,
) -> Seq<CreditRecordView> {
    records.filter(|r: CreditRecordView| is_candidate(r, subject, chain, stored))
}

/// Whether a record belongs to another institution than `reader`.
pub open spec fn is_foreign(record: CreditRecordView, reader: Seq<u8>) -> bool {
    record.institution_id != reader
}

/// Whether `reader` may not be served a record: it belongs to another
/// institution, which is not registered or has switched its data service off.
pub open spec fn is_withheld(
    record: CreditRecordView,
    reader: Seq<u8>,
    institutions: Map<Seq<u8>, InstitutionView>,
) -> bool {
    &&& is_foreign(record, reader)
    &&& (!institutions.contains_key(record.institution_id)
        || !institutions[record.institution_id].data_service_enabled)
}

/// The candidates that `reader` may not be served, in record order.
pub open spec fn withheld(
    records: Seq<CreditRecordView>,
    subject: Seq<char>,
    chain: Map<Seq<char>, (Seq<char>, Seq<u8>)>,
    stored: Map<Seq<char>, Seq<u8>>,
    reader: Seq<u8>,
    institutions: Map<Seq<u8>, InstitutionView>,
) -> Seq<CreditRecordView> {
    records.filter(
        |r: CreditRecordView|
            is_candidate(r, subject, chain, stored) && is_withheld(r, reader, institutions),
    )
}

/// What `reader` owes for a record: the owner's query price, and nothing for
/// a record of its own.
pub open spec fn price_for(
    record: CreditRecordView,
    reader: Seq<u8>,
    institutions: Map<Seq<u8>, InstitutionView>,
) -> u64 {
    if is_foreign(record, reader) {
        institutions[record.institution_id].query_price
    } else {
        0
    }
}

/// Why the owner of a withheld record cannot serve it.
pub open spec fn refusal(institutions: Map<Seq<u8>, InstitutionView>, owner: Seq<u8>) -> Seq<char> {
    if !institutions.contains_key(owner) {
        "机构不存在"@
    } else {
        "机构 "@ + institutions[owner].name + " 未开启数据服务"@
    }
}

/// The registry after every record of another institution among `served`
/// has been counted, in order: one outbound query for the reader and one
/// inbound query for the owner.
pub open spec fn counted(
    institutions: Map<Seq<u8>, InstitutionView>,
    reader: Seq<u8>,
    served: Seq<CreditRecordView>,
) -> Map<Seq<u8>, InstitutionView>
    decreases served.len(),
{
    if served.len() == 0 {
        institutions
    } else {
        let before = counted(institutions, reader, served.drop_last());
        if is_foreign(served.last(), reader) {
            changed(
                changed(before, reader, |inst: InstitutionView| after_outbound_query(inst)),
                served.last().institution_id,
                |inst: InstitutionView| after_inbound_query(inst),
            )
        } else {
            before
        }
    }
}

/// What a query by subject comes to.
pub open spec fn subject_outcome(
    records: Seq<CreditRecordView>,
    chain: Map<Seq<char>, (Seq<char>, Seq<u8>)>,
    stored: Map<Seq<char>, Seq<u8>>,
    before: Map<Seq<u8>, InstitutionView>,
    after: Map<Seq<u8>, InstitutionView>,
    reader: Seq<u8>,
    subject: Seq<char>,
    out: Result<SubjectRecords, String>,
) -> bool {
    let served = candidates(records, subject, chain, stored);
    let refused = withheld(records, subject, chain, stored, reader, before);
    if refused.len() > 0 {
        &&& out is Err
        &&& out->Err_0@ == refusal(before, refused[0].institution_id)
        &&& after == before
    } else {
        &&& out is Ok
        &&& record_views(out->Ok_0.records@) == served_records(served, reader, before)
        &&& settlement_views(out->Ok_0.settlements@) == due_settlements(served, reader, before)
        &&& after == counted(before, reader, served)
    }
}

/// The records as they are served to `reader`: each at the price the reader
/// owes for it.
pub open spec fn served_records(
    served: Seq<CreditRecordView>,
    reader: Seq<u8>,
    institutions: Map<Seq<u8>, InstitutionView>,
) -> Seq<CreditRecordView> {
    served.map_values(
        |r: CreditRecordView| r.with_query_price(price_for(r, reader, institutions)),
    )
}

/// The settlements that fall due when `served` is served to `reader`: one
/// for each record of another institution, in order.
pub open spec fn due_settlements(
    served: Seq<CreditRecordView>,
    reader: Seq<u8>,
    institutions: Map<Seq<u8>, InstitutionView>,
) -> Seq<TokenOperationView> {
    served.filter(|r: CreditRecordView| is_foreign(r, reader)).map_values(
        |r: CreditRecordView| settlement_for(reader, r, price_for(r, reader, institutions)),
    )
}

impl RecordService {
    /// Serves an institution every readable record about a subject.
    ///
    /// Where one of these records belongs to another institution that is not
    /// registered or has switched its data service off, the whole call fails
    /// with a message that names the owner of the first such record; nothing
    /// is served and nothing is counted. Otherwise every record is served at
    /// the price the reader owes for it, which is zero for its own; and for
    /// each record of another institution an outbound query is counted for
    /// the reader, an inbound query for the owner, and a settlement at the
    /// owner's query price falls due.
    #[allow(non_snake_case)]
    pub fn get_record_userId(
        &self,
        registry: &mut AdminService,
        storage: &StorageService,
        institution_id: &AccountId,
        user_did: String,
    ) -> (out: Result<SubjectRecords, String>)
        requires
            self.wf(),
            old(registry).wf(),
            storage.wf(),
        ensures
            final(registry).wf(),
            same_registry_but_institutions(*old(registry), *final(registry)),
            subject_outcome(
                self.records(),
                storage.chain(),
                storage.stored(),
                old(registry).institutions(),
                final(registry).institutions(),
                institution_id@,
                user_did@,
                out,
            ),
    {
        let ghost records = self.records();
        let ghost reader = institution_id@;
        let ghost map0 = registry.institutions();
        let ghost cand = |r: CreditRecordView|
            is_candidate(r, user_did@, storage.chain(), storage.stored());
        let ghost bad = |r: CreditRecordView|
            is_candidate(r, user_did@, storage.chain(), storage.stored()) && is_withheld(
                r,
                reader,
                map0,
            );
        let n = self.record_count();
        let mut plan: Vec<usize> = Vec::new();
        let mut prices: Vec<u64> = Vec::new();
        let mut i: usize = 0;
        let ghost mut done: Seq<CreditRecordView> = Seq::empty();
        proof {
            reveal(Seq::filter);
            assert(records.take(0) =~= Seq::<CreditRecordView>::empty());
        }
        while i < n
            invariant
                self.wf(),
                registry.wf(),
                storage.wf(),
                records == self.records(),
                reader == institution_id@,
                map0 == registry.institutions(),
                *registry == *old(registry),
                n == records.len(),
                0 <= i <= n,
                cand == (|r: CreditRecordView|
                    is_candidate(r, user_did@, storage.chain(), storage.stored())),
                bad == (|r: CreditRecordView|
                    is_candidate(r, user_did@, storage.chain(), storage.stored()) && is_withheld(
                        r,
                        reader,
                        map0,
                    )),
                records.take(i as int).filter(bad).len() == 0,
                done == records.take(i as int).filter(cand),
                plan@.len() == done.len(),
                prices@.len() == plan@.len(),
                forall|k: int|
                    0 <= k < plan@.len() ==> {
                        &&& #[trigger] plan@[k] < n
                        &&& records[plan@[k] as int] == done[k]
                        &&& prices@[k] == price_for(done[k], reader, map0)
                        &&& done[k].user_did == user_did@
                    },
            decreases n - i,
        {
            let record = self.record_at(i);
            proof {
                lemma_filter_take_step(records, cand, i as int);
                lemma_filter_take_step(records, bad, i as int);
            }
            if record.user_did == user_did && Self::is_accessible(storage, record.id.as_str()) {
                let mut price: u64 = 0;
                if record.institution_id != *institution_id {
                    match registry.get_institution(&record.institution_id) {
                        Some(owner) => {
                            if !owner.data_service_enabled {
                                let mut message = String::from_str("机构 ");
                                message.append(owner.name.as_str());
                                message.append(" 未开启数据服务");
                                proof {
                                    lemma_filter_prefix(records, bad, i + 1, n as int);
                                    lemma_take_all(records);
                                }
                                return Err(message);
                            }
                            price = owner.query_price;
                        },
                        None => {
                            proof {
                                lemma_filter_prefix(records, bad, i + 1, n as int);
                                lemma_take_all(records);
                            }
                            return Err(String::from_str("机构不存在"));
                        },
                    }
                }
                let ghost plan_before = plan@;
                let ghost prices_before = prices@;
                let ghost done_before = done;
                plan.push(i);
                prices.push(price);
                proof {
                    done = done.push(record@);
                    assert(record@.user_did == user_did@);
                    assert(price == price_for(record@, reader, map0));
                    assert forall|k: int| 0 <= k < plan@.len() implies {
                        &&& #[trigger] plan@[k] < n
                        &&& records[plan@[k] as int] == done[k]
                        &&& prices@[k] == price_for(done[k], reader, map0)
                        &&& done[k].user_did == user_did@
                    } by {
                        if k < plan_before.len() {
                            assert(plan@[k] == plan_before[k]);
                            assert(prices@[k] == prices_before[k]);
                            assert(done[k] == done_before[k]);
                        }
                    }
                }
            }
            i += 1;
        }
        proof {
            lemma_take_all(records);
        }
        let ghost served = records.filter(cand);
        assert(served == done);
        let ghost foreign = |r: CreditRecordView| is_foreign(r, reader);
        let ghost priced = |r: CreditRecordView| r.with_query_price(price_for(r, reader, map0));
        let ghost settle = |r: CreditRecordView|
            settlement_for(reader, r, price_for(r, reader, map0));
        let mut found: Vec<CreditRecord> = Vec::new();
        let mut settlements: Vec<TokenOperation> = Vec::new();
        let mut k: usize = 0;
        proof {
            reveal(Seq::filter);
            assert(served.take(0) =~= Seq::<CreditRecordView>::empty());
            assert(settlement_views(settlements@) =~= served.take(0).filter(foreign).map_values(
                settle,
            ));
        }
        while k < plan.len()
            invariant
                self.wf(),
                registry.wf(),
                records == self.records(),
                reader == institution_id@,
                same_registry_but_institutions(*old(registry), *registry),
                n == records.len(),
                served == records.filter(cand),
                foreign == (|r: CreditRecordView| is_foreign(r, reader)),
                settle == (|r: CreditRecordView|
                    settlement_for(reader, r, price_for(r, reader, map0))),
                plan@.len() == served.len(),
                prices@.len() == plan@.len(),
                0 <= k <= plan@.len(),
                forall|j: int|
                    0 <= j < plan@.len() ==> {
                        &&& #[trigger] plan@[j] < n
                        &&& records[plan@[j] as int] == served[j]
                        &&& prices@[j] == price_for(served[j], reader, map0)
                        &&& served[j].user_did == user_did@
                    },
                found@.len() == k,
                forall|j: int|
                    0 <= j < k ==> #[trigger] found@[j]@ == served[j].with_query_price(
                        price_for(served[j], reader, map0),
                    ),
                settlement_views(settlements@) == served.take(k as int).filter(foreign).map_values(
                    settle,
                ),
                registry.institutions() == counted(map0, reader, served.take(k as int)),
            decreases plan@.len() - k,
        {
            let record = self.record_at(plan[k]);
            let price = prices[k];
            assert(record@ == served[k as int]);
            proof {
                lemma_filter_take_step(served, foreign, k as int);
                assert(served.take(k + 1).drop_last() =~= served.take(k as int));
                assert(served.take(k + 1).last() == served[k as int]);
            }
            if record.institution_id != *institution_id {
                registry.increment_outbound_queries(institution_id);
                registry.increment_inbound_queries(&record.institution_id);
                let ghost ops_before = settlements@;
                settlements.push(
                    TokenOperation {
                        from_id: institution_id.clone(),
                        to_id: record.institution_id.clone(),
                        user_did: user_did.clone(),
                        query_price: price,
                        record: record.clone(),
                    },
                );
                assert(settlement_views(settlements@) =~= settlement_views(ops_before).push(
                    settle(served[k as int]),
                ));
                assert(served.take(k + 1).filter(foreign).map_values(settle) =~= served.take(
                    k as int,
                ).filter(foreign).map_values(settle).push(settle(served[k as int])));
            }
            let mut copy = record.clone();
            copy.query_price = price;
            found.push(copy);
            k += 1;
        }
        proof {
            lemma_take_all(served);
            assert(record_views(found@) =~= served.map_values(priced));
        }
        Ok(SubjectRecords { records: found, settlements })
    }

    /// Serves a registered institution every readable record about a
    /// subject, under the institution's full name. Fails with "机构不存在"
    /// for an unregistered reader, and as [`RecordService::get_record_userId`]
    /// does.
    pub fn get_institution_records(
        &self,
        registry: &mut AdminService,
        storage: &StorageService,
        institution_id: &AccountId,
        user_did: &str,
    ) -> (out: Result<(InstitutionRecordResponse, Vec<TokenOperation>), String>)
        requires
            self.wf(),
            old(registry).wf(),
            storage.wf(),
        ensures
            final(registry).wf(),
            same_registry_but_institutions(*old(registry), *final(registry)),
            if !old(registry).institutions().contains_key(institution_id@) {
                &&& out is Err
                &&& out->Err_0@ == "机构不存在"@
                &&& final(registry).institutions() == old(registry).institutions()
            } else {
                &&& subject_outcome(
                    self.records(),
                    storage.chain(),
                    storage.stored(),
                    old(registry).institutions(),
                    final(registry).institutions(),
                    institution_id@,
                    user_did@,
                    match out {
                        Ok(pair) => Ok(SubjectRecords { records: pair.0.records, settlements: pair.1 }),
                        Err(e) => Err(e),
                    },
                )
                &&& out is Ok ==> {
                    &&& out->Ok_0.0.institution_id@ == institution_id@
                    &&& out->Ok_0.0.institution_name@ == old(registry).institutions()[institution_id@].full_name
                    &&& out->Ok_0.0.user_did@ == user_did@
                }
            },
    {
        let institution = match registry.get_institution(institution_id) {
            Some(inst) => inst,
            None => {
                return Err(String::from_str("机构不存在"));
            },
        };
        match self.get_record_userId(registry, storage, institution_id, String::from_str(user_did)) {
            Ok(found) => {
                let SubjectRecords { records, settlements } = found;
                Ok(
                    (
                        InstitutionRecordResponse {
                            institution_id: institution_id.clone(),
                            institution_name: institution.full_name,
                            user_did: String::from_str(user_did),
                            records,
                        },
                        settlements,
                    ),
                )
            },
            Err(e) => Err(e),
        }
    }

    /// The readable records that an institution has submitted itself, in
    /// record order, under the institution's full name and no subject. Fails
    /// with "机构不存在" for an unregistered institution. Nothing is counted.
    pub fn get_failed_records_storage(
        &self,
        registry: &AdminService,
        storage: &StorageService,
        institution_id: &AccountId,
    ) -> (out: Result<InstitutionRecordResponse, String>)
        requires
            self.wf(),
            registry.wf(),
            storage.wf(),
        ensures
            out is Ok <==> registry.institutions().contains_key(institution_id@),
            out is Err ==> out->Err_0@ == "机构不存在"@,
            out is Ok ==> {
                &&& out->Ok_0.institution_id@ == institution_id@
                &&& out->Ok_0.institution_name@ == registry.institutions()[institution_id@].full_name
                &&& out->Ok_0.user_did@ == Seq::<char>::empty()
                &&& record_views(out->Ok_0.records@) == self.records().filter(
                    |r: CreditRecordView|
                        r.institution_id == institution_id@ && accessible(
                            storage.chain(),
                            storage.stored(),
                            r.id,
                        ),
                )
            },
    {
        let institution = match registry.get_institution(institution_id) {
            Some(inst) => inst,
            None => {
                return Err(String::from_str("机构不存在"));
            },
        };
        let ghost records = self.records();
        let ghost own = |r: CreditRecordView|
            r.institution_id == institution_id@ && accessible(
                storage.chain(),
                storage.stored(),
                r.id,
            );
        let n = self.record_count();
        let mut found: Vec<CreditRecord> = Vec::new();
        let mut i: usize = 0;
        proof {
            reveal(Seq::filter);
            assert(records.take(0) =~= Seq::<CreditRecordView>::empty());
            assert(record_views(found@) =~= Seq::<CreditRecordView>::empty());
        }
        while i < n
            invariant
                self.wf(),
                storage.wf(),
                records == self.records(),
                n == records.len(),
                0 <= i <= n,
                own == (|r: CreditRecordView|
                    r.institution_id == institution_id@ && accessible(
                        storage.chain(),
                        storage.stored(),
                        r.id,
                    )),
                record_views(found@) == records.take(i as int).filter(own),
            decreases n - i,
        {
            let record = self.record_at(i);
            proof {
                lemma_filter_take_step(records, own, i as int);
            }
            if record.institution_id == *institution_id && Self::is_accessible(
                storage,
                record.id.as_str(),
            ) {
                let ghost before = found@;
                found.push(record.clone());
                assert(record_views(found@) =~= record_views(before).push(record@));
            }
            i += 1;
        }
        proof {
            lemma_take_all(records);
        }
        Ok(
            InstitutionRecordResponse {
                institution_id: institution_id.clone(),
                institution_name: institution.full_name,
                user_did: String::new(),
                records: found,
            },
        )
    }

    /// The settlement that `query_institution_id` owes for a read of
    /// `record`, at the query price of the record's owner. Fails with
    /// "机构不存在" where the owner is not registered.
    pub fn reward_query_token(
        registry: &AdminService,
        query_institution_id: &AccountId,
        record: CreditRecord,
        user_did: String,
    ) -> (out: Result<TokenOperation, String>)
        requires
            registry.wf(),
        ensures
            out is Ok <==> registry.institutions().contains_key(record@.institution_id),
            out is Err ==> out->Err_0@ == "机构不存在"@,
            out is Ok ==> out->Ok_0@ == (TokenOperationView {
                from_id: query_institution_id@,
                to_id: record@.institution_id,
                user_did: user_did@,
                query_price: registry.institutions()[record@.institution_id].query_price,
                record: record@,
            }),
    {
        let target = match registry.get_institution(&record.institution_id) {
            Some(inst) => inst,
            None => {
                return Err(String::from_str("机构不存在"));
            },
        };
        Ok(
            TokenOperation {
                from_id: query_institution_id.clone(),
                to_id: record.institution_id.clone(),
                user_did,
                query_price: target.query_price,
                record,
            },
        )
    }
}

} // verus!
