//! The public record interface: single and batched submission, and the
//! queries by identifier, by subject and by filter.

use vstd::prelude::*;
use vstd::string::*;
use crate::models::account::AccountId;
use crate::models::institution::InstitutionView;
use crate::models::record::{
    record_views,
    settlement_for,
    BatchSubmissionRequest,
    BatchSubmissionResponse,
    CreditRecord,
    CreditRecordView,
    RecordQueryParams,
    RecordStatus,
    RecordSubmissionRequest,
    RecordSubmissionResponse,
    TokenOperation,
};
use crate::services::admin_institution_service::{after_read, AdminService};
use crate::services::record_service::{
    accessible,
    after_commit,
    after_submission,
    commit_verdict,
    has_record,
    is_accepted,
    lemma_submission_state,
    pipeline_state,
    record_id_text,
    record_matches,
    record_with_id,
    same_registry_but_institutions,
    same_setup,
    validation_error,
    PipelineState,
    RecordService,
    SubmissionView,
};
use crate::services::storage_service::StorageService;
use crate::services::subject_query::{subject_outcome, SubjectRecords};
use crate::utils::error::ErrorKind;
use crate::utils::text::{join, text_views};

verus! {

/// The largest number of records in one batch.
pub const MAX_BATCH_SIZE: usize = 1000;

/// The counter value for the record at position `i` of a batch that starts
/// at `counter`: the counter goes up by one per record and starts again from
/// zero past its largest value.
pub open spec fn counter_at(counter: u64, i: int) -> u64 {
    if counter + i <= u64::MAX {
        (counter + i) as u64
    } else {
        (counter + i - u64::MAX - 1) as u64
    }
}

/// The views of a list of submissions, in order.
pub open spec fn submission_views(requests: Seq<RecordSubmissionRequest>) -> Seq<SubmissionView> {
    requests.map_values(|r: RecordSubmissionRequest| r@)
}

/// The state after the first `n` submissions of a batch.
pub open spec fn after_batch(
    service: RecordService,
    state: PipelineState,
    requests: Seq<SubmissionView>,
    now: u64,
    counter: u64,
    n: int,
) -> PipelineState
    decreases n,
{
    if n <= 0 {
        state
    } else {
        after_submission(
            service,
            after_batch(service, state, requests, now, counter, n - 1),
            requests[n - 1],
            now,
            counter_at(counter, n - 1),
        )
    }
}

/// The identifiers of the accepted among the first `n` submissions of a
/// batch, in order.
pub open spec fn accepted_ids(
    institutions: Map<Seq<u8>, InstitutionView>,
    requests: Seq<SubmissionView>,
    now: u64,
    counter: u64,
    n: int,
) -> Seq<Seq<char>>
    decreases n,
{
    if n <= 0 {
        Seq::empty()
    } else {
        let earlier = accepted_ids(institutions, requests, now, counter, n - 1);
        if is_accepted(institutions, requests[n - 1]) {
            earlier.push(record_id_text(now, counter_at(counter, n - 1)))
        } else {
            earlier
        }
    }
}

/// Why a submission that is not accepted is refused: its institution is not
/// registered, or its content does not pass validation.
pub open spec fn refusal_reason(
    institutions: Map<Seq<u8>, InstitutionView>,
    request: SubmissionView,
) -> Seq<char> {
    if !institutions.contains_key(request.institution_id) {
        "机构不存在"@
    } else {
        validation_error(request.record_type, request.content).unwrap()
    }
}

/// Submits one record and answers with its identifier, as pending. A refused
/// submission fails with "提交记录失败: " and the reason.
pub fn submit_record(
    service: &mut RecordService,
    registry: &mut AdminService,
    storage: &mut StorageService,
    request: RecordSubmissionRequest,
    now: u64,
    counter: u64,
) -> (out: Result<RecordSubmissionResponse, String>)
    requires
        old(service).wf(),
        old(registry).wf(),
        old(storage).wf(),
    ensures
        final(service).wf(),
        final(registry).wf(),
        final(storage).wf(),
        same_setup(*old(service), *final(service)),
        same_registry_but_institutions(*old(registry), *final(registry)),
        pipeline_state(*final(service), *final(registry), *final(storage)) == after_submission(
            *old(service),
            pipeline_state(*old(service), *old(registry), *old(storage)),
            request@,
            now,
            counter,
        ),
        out is Ok <==> is_accepted(old(registry).institutions(), request@),
        out is Ok ==> {
            &&& out->Ok_0.record_id@ == record_id_text(now, counter)
            &&& out->Ok_0.status == RecordStatus::Pending
            &&& out->Ok_0.timestamp == now
            &&& out->Ok_0.reward_amount.is_none()
        },
        out is Err ==> out->Err_0@ == "提交记录失败: "@ + refusal_reason(
            old(registry).institutions(),
            request@,
        ),
{
    let ghost request_view = request@;
    let result = service.submit_record(registry, storage, request, now, counter);
    proof {
        lemma_submission_state(
            *old(service),
            *service,
            *old(registry),
            *registry,
            *old(storage),
            *storage,
            request_view,
            now,
            counter,
            result,
        );
    }
    match result {
        Ok(record_id) => Ok(
            RecordSubmissionResponse {
                record_id,
                status: RecordStatus::Pending,
                timestamp: now,
                reward_amount: None,
            },
        ),
        Err(e) => {
            let text = join("提交记录失败: ", e.as_str());
            Err(text)
        },
    }
}

/// Submits the records of a batch one by one, at time `now`, under counter
/// values that go up from `counter`.
///
/// An empty batch fails with "没有有效的记录" and a batch of more than a
/// thousand records with "单次提交不能超过1000条记录"; neither changes anything.
/// Otherwise every record is submitted, whatever becomes of the others, and
/// the answer tells how many were accepted, how many were refused, and the
/// identifiers of the accepted in request order.
pub fn submit_records_batch(
    service: &mut RecordService,
    registry: &mut AdminService,
    storage: &mut StorageService,
    request: BatchSubmissionRequest,
    now: u64,
    counter: u64,
) -> (out: Result<BatchSubmissionResponse, String>)
    requires
        old(service).wf(),
        old(registry).wf(),
        old(storage).wf(),
    ensures
        final(service).wf(),
        final(registry).wf(),
        final(storage).wf(),
        same_setup(*old(service), *final(service)),
        same_registry_but_institutions(*old(registry), *final(registry)),
        request.records@.len() == 0 ==> out is Err && out->Err_0@ == "没有有效的记录"@,
        request.records@.len() > 1000 ==> out is Err && out->Err_0@
            == "单次提交不能超过1000条记录"@,
        out is Ok <==> 1 <= request.records@.len() <= 1000,
        out is Err ==> pipeline_state(*final(service), *final(registry), *final(storage))
            == pipeline_state(*old(service), *old(registry), *old(storage)),
        out is Ok ==> {
            let requests = submission_views(request.records@);
            let ids = accepted_ids(
                old(registry).institutions(),
                requests,
                now,
                counter,
                requests.len() as int,
            );
            &&& text_views(out->Ok_0.record_ids@) == ids
            &&& out->Ok_0.submitted == ids.len()
            &&& out->Ok_0.failed == requests.len() - ids.len()
            &&& out->Ok_0.timestamp == now
            &&& out->Ok_0.status == RecordStatus::Pending
            &&& pipeline_state(*final(service), *final(registry), *final(storage)) == after_batch(
                *old(service),
                pipeline_state(*old(service), *old(registry), *old(storage)),
                requests,
                now,
                counter,
                requests.len() as int,
            )
        },
{
    if request.records.len() == 0 {
        return Err(String::from_str("没有有效的记录"));
    }
    if request.records.len() > MAX_BATCH_SIZE {
        return Err(String::from_str("单次提交不能超过1000条记录"));
    }
    let ghost requests = submission_views(request.records@);
    let ghost state0 = pipeline_state(*service, *registry, *storage);
    let ghost map0 = registry.institutions();
    let n = request.records.len();
    let mut submitted: usize = 0;
    let mut failed: usize = 0;
    let mut record_ids: Vec<String> = Vec::new();
    let mut i: usize = 0;
    assert(text_views(record_ids@) =~= Seq::<Seq<char>>::empty());
    while i < n
        invariant
            service.wf(),
            registry.wf(),
            storage.wf(),
            same_setup(*old(service), *service),
            same_registry_but_institutions(*old(registry), *registry),
            registry.institutions().dom() == map0.dom(),
            map0 == old(registry).institutions(),
            state0 == pipeline_state(*old(service), *old(registry), *old(storage)),
            requests == submission_views(request.records@),
            n == request.records@.len(),
            n <= 1000,
            0 <= i <= n,
            text_views(record_ids@) == accepted_ids(map0, requests, now, counter, i as int),
            submitted == record_ids@.len(),
            submitted + failed == i,
            pipeline_state(*service, *registry, *storage) == after_batch(
                *old(service),
                state0,
                requests,
                now,
                counter,
                i as int,
            ),
        decreases n - i,
    {
        let item = request.records[i].clone();
        let step: u64 = i as u64;
        let item_counter: u64 = if counter <= u64::MAX - step {
            counter + step
        } else {
            step - (u64::MAX - counter) - 1
        };
        assert(item_counter == counter_at(counter, i as int));
        let ghost before_service = *service;
        let ghost before_registry = *registry;
        let ghost before_storage = *storage;
        let result = service.submit_record(registry, storage, item, now, item_counter);
        proof {
            lemma_submission_state(
                before_service,
                *service,
                before_registry,
                *registry,
                before_storage,
                *storage,
                requests[i as int],
                now,
                item_counter,
                result,
            );
        }
        match result {
            Ok(record_id) => {
                let ghost ids_before = record_ids@;
                record_ids.push(record_id);
                assert(text_views(record_ids@) =~= text_views(ids_before).push(
                    record_id_text(now, item_counter),
                ));
                submitted = submitted + 1;
            },
            Err(_) => {
                failed = failed + 1;
            },
        }
        i += 1;
    }
    Ok(
        BatchSubmissionResponse {
            submitted,
            failed,
            record_ids,
            timestamp: now,
            status: RecordStatus::Pending,
        },
    )
}

/// Serves one record to an institution, with the settlement that falls due
/// for it. Fails with "Record not found" where the record does not exist or
/// its payload cannot be read; nothing is counted then.
pub fn query_record_by_id(
    service: &RecordService,
    registry: &mut AdminService,
    storage: &StorageService,
    record_id: String,
    institution_id: &AccountId,
    now: u64,
) -> (out: Result<(CreditRecord, Option<TokenOperation>), String>)
    requires
        service.wf(),
        old(registry).wf(),
        storage.wf(),
    ensures
        final(registry).wf(),
        same_registry_but_institutions(*old(registry), *final(registry)),
        out is Ok <==> has_record(service.records(), record_id@) && accessible(
            storage.chain(),
            storage.stored(),
            record_id@,
        ),
        out is Err ==> out->Err_0@ == "Record not found"@ && final(registry).institutions()
            == old(registry).institutions(),
        out is Ok ==> {
            let record = record_with_id(service.records(), record_id@);
            &&& out->Ok_0.0@ == record
            &&& final(registry).institutions() == after_read(
                old(registry).institutions(),
                institution_id@,
                record.institution_id,
                1,
                now,
            )
            &&& out->Ok_0.1 is Some <==> record.institution_id != institution_id@
                && old(registry).institutions().contains_key(record.institution_id)
            &&& out->Ok_0.1 is Some ==> out->Ok_0.1->Some_0@ == settlement_for(
                institution_id@,
                record,
                old(registry).institutions()[record.institution_id].query_price,
            )
        },
{
    let (found, due) = service.get_record_by_id(
        registry,
        storage,
        record_id.as_str(),
        institution_id,
        now,
    );
    match found {
        Some(record) => Ok((record, due)),
        None => Err(String::from_str("Record not found")),
    }
}

/// Serves an institution every readable record about a subject, as
/// [`RecordService::get_record_userId`] does.
pub fn query_records_by_user_did(
    service: &RecordService,
    registry: &mut AdminService,
    storage: &StorageService,
    institution_id: &AccountId,
    user_did: String,
) -> (out: Result<SubjectRecords, String>)
    requires
        service.wf(),
        old(registry).wf(),
        storage.wf(),
    ensures
        final(registry).wf(),
        same_registry_but_institutions(*old(registry), *final(registry)),
        subject_outcome(
            service.records(),
            storage.chain(),
            storage.stored(),
            old(registry).institutions(),
            final(registry).institutions(),
            institution_id@,
            user_did@,
            out,
        ),
{
    service.get_record_userId(registry, storage, institution_id, user_did)
}

/// The records that pass a filter, in record order.
pub fn query_records(service: &RecordService, params: RecordQueryParams) -> (found: Vec<
    CreditRecord,
>)
    requires
        service.wf(),
    ensures
        record_views(found@) == service.records().filter(
            |r: CreditRecordView| record_matches(r, params),
        ),
{
    service.query_records(params)
}

/// Verifies a pending record, as [`RecordService::verify_and_commit`] does;
/// an error is reported as "记录验证失败: " and its text.
pub fn verify_and_commit(
    service: &mut RecordService,
    storage: &StorageService,
    record_id: String,
    content_bytes: &[u8],
) -> (out: Result<bool, String>)
    requires
        old(service).wf(),
        storage.wf(),
    ensures
        final(service).wf(),
        same_setup(*old(service), *final(service)),
        final(service).records() == after_commit(
            old(service).records(),
            storage.chain(),
            old(service).payload_key(),
            old(service).verification_key(),
            record_id@,
            content_bytes@,
        ),
        match commit_verdict(
            old(service).records(),
            storage.chain(),
            old(service).payload_key(),
            old(service).verification_key(),
            record_id@,
            content_bytes@,
        ) {
            Ok(valid) => out == Ok::<bool, String>(valid),
            Err(kind) => out is Err && out->Err_0@ == "记录验证失败: "@ + verification_failure(kind),
        },
{
    match service.verify_and_commit(storage, record_id.as_str(), content_bytes) {
        Ok(valid) => Ok(valid),
        Err(e) => Err(join("记录验证失败: ", e.as_str())),
    }
}

/// The text of each kind of error that a verification fails with.
pub open spec fn verification_failure(kind: ErrorKind) -> Seq<char> {
    match kind {
        ErrorKind::InvalidStatus => "无效的记录状态"@,
        ErrorKind::InvalidProof => "无效的证明"@,
        ErrorKind::EncryptionFailed => "Decryption failed: Invalid data length"@,
        _ => "Content integrity check failed"@,
    }
}

/// The views of a list of records to verify: identifier and serialized
/// content of each.
pub open spec fn item_views(items: Seq<(String, Vec<u8>)>) -> Seq<(Seq<char>, Seq<u8>)> {
    items.map_values(|item: (String, Vec<u8>)| (item.0@, item.1@))
}

/// The records after the first `n` of `items` have been verified in order.
pub open spec fn after_commits(
    records: Seq<CreditRecordView>,
    chain: Map<Seq<char>, (Seq<char>, Seq<u8>)>,
    payload_key: Seq<u8>,
    verification_key: Seq<u8>,
    items: Seq<(Seq<char>, Seq<u8>)>,
    n: int,
) -> Seq<CreditRecordView>
    decreases n,
{
    if n <= 0 {
        records
    } else {
        after_commit(
            after_commits(records, chain, payload_key, verification_key, items, n - 1),
            chain,
            payload_key,
            verification_key,
            items[n - 1].0,
            items[n - 1].1,
        )
    }
}

/// Verifies several records in order, each against its serialized content.
/// The answer pairs each identifier with `true` where the record was
/// confirmed, and with `false` where it was rejected or its verification
/// failed with an error. Never fails.
pub fn verify_records_batch(
    service: &mut RecordService,
    storage: &StorageService,
    items: Vec<(String, Vec<u8>)>,
) -> (out: Result<Vec<(String, bool)>, String>)
    requires
        old(service).wf(),
        storage.wf(),
    ensures
        final(service).wf(),
        same_setup(*old(service), *final(service)),
        out is Ok,
        out->Ok_0@.len() == items@.len(),
        forall|i: int|
            0 <= i < items@.len() ==> {
                &&& (#[trigger] out->Ok_0@[i]).0@ == items@[i].0@
                &&& out->Ok_0@[i].1 == (commit_verdict(
                    after_commits(
                        old(service).records(),
                        storage.chain(),
                        old(service).payload_key(),
                        old(service).verification_key(),
                        item_views(items@),
                        i,
                    ),
                    storage.chain(),
                    old(service).payload_key(),
                    old(service).verification_key(),
                    items@[i].0@,
                    items@[i].1@,
                ) == Ok::<bool, ErrorKind>(true))
            },
        final(service).records() == after_commits(
            old(service).records(),
            storage.chain(),
            old(service).payload_key(),
            old(service).verification_key(),
            item_views(items@),
            items@.len() as int,
        ),
{
    let ghost views = item_views(items@);
    let ghost records0 = service.records();
    let ghost key = service.payload_key();
    let ghost vk = service.verification_key();
    let mut results: Vec<(String, bool)> = Vec::new();
    let mut i: usize = 0;
    while i < items.len()
        invariant
            service.wf(),
            storage.wf(),
            same_setup(*old(service), *service),
            views == item_views(items@),
            records0 == old(service).records(),
            key == old(service).payload_key(),
            vk == old(service).verification_key(),
            0 <= i <= items@.len(),
            results@.len() == i,
            service.records() == after_commits(records0, storage.chain(), key, vk, views, i as int),
            forall|j: int|
                0 <= j < i ==> {
                    &&& (#[trigger] results@[j]).0@ == items@[j].0@
                    &&& results@[j].1 == (commit_verdict(
                        after_commits(records0, storage.chain(), key, vk, views, j),
                        storage.chain(),
                        key,
                        vk,
                        items@[j].0@,
                        items@[j].1@,
                    ) == Ok::<bool, ErrorKind>(true))
                },
        decreases items@.len() - i,
    {
        let item = &items[i];
        assert(views[i as int] == (item.0@, item.1@));
        let confirmed = match service.verify_and_commit(
            storage,
            item.0.as_str(),
            item.1.as_slice(),
        ) {
            Ok(valid) => valid,
            Err(_) => false,
        };
        results.push((item.0.clone(), confirmed));
        i += 1;
    }
    Ok(results)
}

} // verus!
