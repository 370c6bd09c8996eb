//! What holds of the pipeline as a whole.

use vstd::prelude::*;
use crate::api::record_api::accepted_ids;
use crate::models::institution::InstitutionView;
use crate::models::record::{CreditRecordView, RecordStatus, TokenOperationView};
use crate::services::admin_institution_service::{
    after_inbound_query,
    after_outbound_query,
    changed,
    AdminService,
};
use crate::services::crypto_service::{ciphertext, iv_at, lemma_decrypt_inverts_encrypt, plaintext};
use crate::services::logger::{logged, LogEntryView};
use crate::services::record_service::{
    accessible,
    after_commit,
    after_submission,
    commit_verdict,
    has_record,
    is_accepted,
    record_id_text,
    record_ids,
    record_with_id,
    validation_error,
    PipelineState,
    RecordService,
    SubmissionView,
};
use crate::services::subject_query::{
    candidates,
    counted,
    due_settlements,
    is_candidate,
    is_foreign,
    is_withheld,
    refusal,
    served_records,
    withheld,
};
use crate::services::token_service::{reward_amount, reward_due};
use crate::services::zk_proof_service::{lemma_proof_len, proof_accepted, proof_of};
use crate::utils::bytes::be_bytes;
use crate::utils::digest::lemma_digest_len;
use crate::utils::error::ErrorKind;
use crate::utils::seqs::{lemma_filter_all, lemma_filter_none, lemma_filter_same, lemma_take_all};

verus! {

/// Whatever bytes are encrypted, at whatever time, decrypting
/// the ciphertext under the same key succeeds and gives the same bytes back.
pub proof fn law_decrypt_inverts_encrypt(key: Seq<u8>, data: Seq<u8>, now: u64)
    requires
        key.len() == 32,
    ensures
        ciphertext(data, key, iv_at(now)).len() >= 32,
        plaintext(ciphertext(data, key, iv_at(now)), key) == data,
{
    lemma_digest_len(be_bytes(now));
    lemma_decrypt_inverts_encrypt(data, key, iv_at(now));
}

/// The proof generated over a record's encrypted content is the proof that
/// verification accepts for that record, and it is 96 bytes long.
pub proof fn law_generated_proof_verifies(record: CreditRecordView, verification_key: Seq<u8>)
    ensures
        proof_accepted(
            record,
            proof_of(record.encrypted_content, verification_key),
            verification_key,
        ),
        proof_of(record.encrypted_content, verification_key).len() == 96,
{
    lemma_proof_len(record.encrypted_content, verification_key);
}

/// Every chain-index entry leads to a stored payload that can be decrypted.
pub open spec fn index_resolves(
    chain: Map<Seq<char>, (Seq<char>, Seq<u8>)>,
    stored: Map<Seq<char>, Seq<u8>>,
) -> bool {
    forall|id: Seq<char>| #[trigger] chain.contains_key(id) ==> accessible(chain, stored, id)
}

/// A submission keeps the chain index resolving.
pub proof fn law_submission_keeps_index(
    service: RecordService,
    state: PipelineState,
    request: SubmissionView,
    now: u64,
    counter: u64,
)
    requires
        service.wf(),
        index_resolves(state.chain, state.stored),
    ensures
        index_resolves(
            after_submission(service, state, request, now, counter).chain,
            after_submission(service, state, request, now, counter).stored,
        ),
{
    service.lemma_wf();
    lemma_digest_len(be_bytes(now));
    let after = after_submission(service, state, request, now, counter);
    assert forall|id: Seq<char>| #[trigger] after.chain.contains_key(id) implies accessible(
        after.chain,
        after.stored,
        id,
    ) by {
        if state.institutions.contains_key(request.institution_id) {
            if id != record_id_text(now, counter) {
                assert(state.chain.contains_key(id));
                assert(accessible(state.chain, state.stored, id));
            }
        }
    }
}

/// A record that has just been accepted is confirmed by its verification:
/// where a submission passes validation under an identifier that no record
/// has yet, verifying the new record against the submitted bytes confirms
/// it.
pub proof fn law_accepted_record_is_confirmed(
    service: RecordService,
    state: PipelineState,
    request: SubmissionView,
    now: u64,
    counter: u64,
)
    requires
        service.wf(),
        state.institutions.contains_key(request.institution_id),
        validation_error(request.record_type, request.content).is_none(),
        !has_record(state.records, record_id_text(now, counter)),
    ensures
        commit_verdict(
            after_submission(service, state, request, now, counter).records,
            after_submission(service, state, request, now, counter).chain,
            service.payload_key(),
            service.verification_key(),
            record_id_text(now, counter),
            request.content_bytes,
        ) == Ok::<bool, ErrorKind>(true),
{
    service.lemma_wf();
    let id = record_id_text(now, counter);
    let after = after_submission(service, state, request, now, counter);
    let n = state.records.len() as int;
    assert(after.records.len() == n + 1);
    assert(after.records[n].id == id);
    assert(record_ids(after.records)[n] == id);
    assert(record_ids(after.records).contains(id));
    let at = record_ids(after.records).index_of(id);
    assert(record_ids(after.records)[at] == id);
    if at < n {
        assert(record_ids(state.records)[at] == id);
        assert(false);
    }
    assert(record_with_id(after.records, id) == after.records[n]);
    law_decrypt_inverts_encrypt(service.payload_key(), request.content_bytes, now);
}

/// Verification moves a record forward only: a record that is not pending
/// is left as it is, no record becomes pending, and no record is added or
/// removed.
pub proof fn law_verification_never_reopens(
    records: Seq<CreditRecordView>,
    chain: Map<Seq<char>, (Seq<char>, Seq<u8>)>,
    payload_key: Seq<u8>,
    verification_key: Seq<u8>,
    id: Seq<char>,
    content_bytes: Seq<u8>,
)
    ensures
        after_commit(records, chain, payload_key, verification_key, id, content_bytes).len()
            == records.len(),
        forall|i: int|
            0 <= i < records.len() && records[i].status != RecordStatus::Pending ==> #[trigger] after_commit(
                records,
                chain,
                payload_key,
                verification_key,
                id,
                content_bytes,
            )[i] == records[i],
        forall|i: int|
            0 <= i < records.len() && #[trigger] after_commit(
                records,
                chain,
                payload_key,
                verification_key,
                id,
                content_bytes,
            )[i].status == RecordStatus::Pending ==> records[i].status == RecordStatus::Pending,
{
    let after = after_commit(records, chain, payload_key, verification_key, id, content_bytes);
    if has_record(records, id) {
        let at = record_ids(records).index_of(id);
        assert(record_ids(records)[at] == id);
    }
}

/// Verifying a record that is not pending fails with `InvalidStatus` and
/// changes nothing; so does verifying a record that does not exist.
pub proof fn law_settled_record_is_not_verified_again(
    records: Seq<CreditRecordView>,
    chain: Map<Seq<char>, (Seq<char>, Seq<u8>)>,
    payload_key: Seq<u8>,
    verification_key: Seq<u8>,
    id: Seq<char>,
    content_bytes: Seq<u8>,
)
    requires
        !has_record(records, id) || record_with_id(records, id).status != RecordStatus::Pending,
    ensures
        commit_verdict(records, chain, payload_key, verification_key, id, content_bytes) == Err::<
            bool,
            ErrorKind,
        >(ErrorKind::InvalidStatus),
        after_commit(records, chain, payload_key, verification_key, id, content_bytes) == records,
{
}

/// A submission under an
/// identifier that no record has yet leaves every record as it is.
pub proof fn law_submission_keeps_records(
    service: RecordService,
    state: PipelineState,
    request: SubmissionView,
    now: u64,
    counter: u64,
)
    requires
        !has_record(state.records, record_id_text(now, counter)),
    ensures
        after_submission(service, state, request, now, counter).records.len()
            >= state.records.len(),
        forall|i: int|
            0 <= i < state.records.len() ==> #[trigger] after_submission(
                service,
                state,
                request,
                now,
                counter,
            ).records[i] == state.records[i],
{
}

/// A submission that fails validation is recorded all the same: made by a
/// registered institution under an identifier that no record has yet, adds
/// exactly one record, which is rejected; and a query for its subject then
/// finds that record behind the records it found before.
pub proof fn law_refused_submission_is_recorded(
    service: RecordService,
    state: PipelineState,
    request: SubmissionView,
    now: u64,
    counter: u64,
)
    requires
        service.wf(),
        index_resolves(state.chain, state.stored),
        state.institutions.contains_key(request.institution_id),
        validation_error(request.record_type, request.content).is_some(),
        !has_record(state.records, record_id_text(now, counter)),
    ensures
        ({
            let after = after_submission(service, state, request, now, counter);
            let added = after.records.last();
            &&& after.records == state.records.push(added)
            &&& added.id == record_id_text(now, counter)
            &&& added.status == RecordStatus::Rejected
            &&& added.user_did == request.user_did
            &&& added.institution_id == request.institution_id
            &&& candidates(after.records, request.user_did, after.chain, after.stored)
                == candidates(state.records, request.user_did, state.chain, state.stored).push(
                added,
            )
        }),
{
    service.lemma_wf();
    lemma_digest_len(be_bytes(now));
    let subject = request.user_did;
    let after = after_submission(service, state, request, now, counter);
    let added = after.records.last();
    let id = record_id_text(now, counter);
    assert(after.records =~= state.records.push(added));
    let p_after = |r: CreditRecordView| is_candidate(r, subject, after.chain, after.stored);
    let p_before = |r: CreditRecordView| is_candidate(r, subject, state.chain, state.stored);
    assert forall|i: int| 0 <= i < state.records.len() implies p_after(
        #[trigger] state.records[i],
    ) == p_before(state.records[i]) by {
        let r = state.records[i];
        assert(record_ids(state.records)[i] == r.id);
        assert(r.id != id);
        if state.chain.contains_key(r.id) {
            assert(accessible(state.chain, state.stored, r.id));
        }
    }
    lemma_filter_same(state.records, p_after, p_before);
    assert(p_after(added));
    reveal(Seq::filter);
    assert(after.records.drop_last() =~= state.records);
}

/// Where one of the readable records about a subject
/// belongs to another institution that is not registered or has switched its
/// data service off, the query for that subject is refused as a whole.
pub proof fn law_withheld_record_blocks_query(
    records: Seq<CreditRecordView>,
    chain: Map<Seq<char>, (Seq<char>, Seq<u8>)>,
    stored: Map<Seq<char>, Seq<u8>>,
    institutions: Map<Seq<u8>, InstitutionView>,
    reader: Seq<u8>,
    subject: Seq<char>,
    i: int,
)
    requires
        0 <= i < records.len(),
        is_candidate(records[i], subject, chain, stored),
        is_withheld(records[i], reader, institutions),
    ensures
        withheld(records, subject, chain, stored, reader, institutions).len() > 0,
{
    let p = |r: CreditRecordView|
        is_candidate(r, subject, chain, stored) && is_withheld(r, reader, institutions);
    assert(p(records[i]));
    if records.filter(p).len() == 0 {
        lemma_filter_none(records, p);
        assert(!p(records[i]));
    }
}

/// Where every record that is withheld from the reader
/// belongs to one registered institution, the refusal names that
/// institution.
pub proof fn law_refusal_names_the_owner(
    records: Seq<CreditRecordView>,
    chain: Map<Seq<char>, (Seq<char>, Seq<u8>)>,
    stored: Map<Seq<char>, Seq<u8>>,
    institutions: Map<Seq<u8>, InstitutionView>,
    reader: Seq<u8>,
    subject: Seq<char>,
    owner: Seq<u8>,
)
    requires
        institutions.contains_key(owner),
        withheld(records, subject, chain, stored, reader, institutions).len() > 0,
        forall|i: int|
            0 <= i < records.len() && is_candidate(#[trigger] records[i], subject, chain, stored)
                && is_withheld(records[i], reader, institutions) ==> records[i].institution_id
                == owner,
    ensures
        refusal(
            institutions,
            withheld(records, subject, chain, stored, reader, institutions)[0].institution_id,
        ) == "机构 "@ + institutions[owner].name + " 未开启数据服务"@,
{
    let p = |r: CreditRecordView|
        is_candidate(r, subject, chain, stored) && is_withheld(r, reader, institutions);
    let first = records.filter(p)[0];
    lemma_filter_all(records, p);
    assert(records.filter(p).contains(first));
    assert(records.contains(first));
    let i = choose|i: int| 0 <= i < records.len() && records[i] == first;
    assert(p(records[i]));
}

/// Where every readable record about a subject
/// belongs to the reader, the query is served, every record at the price
/// zero, no settlement falls due and no query is counted.
pub proof fn law_own_records_are_free(
    records: Seq<CreditRecordView>,
    chain: Map<Seq<char>, (Seq<char>, Seq<u8>)>,
    stored: Map<Seq<char>, Seq<u8>>,
    institutions: Map<Seq<u8>, InstitutionView>,
    reader: Seq<u8>,
    subject: Seq<char>,
)
    requires
        forall|i: int|
            0 <= i < records.len() && is_candidate(#[trigger] records[i], subject, chain, stored)
                ==> records[i].institution_id == reader,
    ensures
        ({
            let served = candidates(records, subject, chain, stored);
            &&& withheld(records, subject, chain, stored, reader, institutions).len() == 0
            &&& due_settlements(served, reader, institutions) == Seq::<TokenOperationView>::empty()
            &&& counted(institutions, reader, served) == institutions
            &&& served_records(served, reader, institutions).len() == served.len()
            &&& forall|k: int|
                0 <= k < served.len() ==> #[trigger] served_records(
                    served,
                    reader,
                    institutions,
                )[k] == served[k].with_query_price(0)
        }),
{
    let cand = |r: CreditRecordView| is_candidate(r, subject, chain, stored);
    let bad = |r: CreditRecordView|
        is_candidate(r, subject, chain, stored) && is_withheld(r, reader, institutions);
    let foreign = |r: CreditRecordView| is_foreign(r, reader);
    let served = records.filter(cand);
    lemma_filter_all(records, cand);
    lemma_filter_all(records, bad);
    assert forall|k: int| 0 <= k < served.len() implies (#[trigger] served[k]).institution_id
        == reader by {
        assert(served.contains(served[k]));
        assert(records.contains(served[k]));
        let i = choose|i: int| 0 <= i < records.len() && records[i] == served[k];
        assert(cand(records[i]));
    }
    if records.filter(bad).len() > 0 {
        let first = records.filter(bad)[0];
        assert(records.filter(bad).contains(first));
        assert(records.contains(first));
        let i = choose|i: int| 0 <= i < records.len() && records[i] == first;
        assert(bad(records[i]));
        assert(false);
    }
    lemma_filter_all(served, foreign);
    if served.filter(foreign).len() > 0 {
        let first = served.filter(foreign)[0];
        assert(served.filter(foreign).contains(first));
        assert(served.contains(first));
        let k = choose|k: int| 0 <= k < served.len() && served[k] == first;
        assert(foreign(served[k]));
        assert(false);
    }
    assert(due_settlements(served, reader, institutions) =~= Seq::<TokenOperationView>::empty());
    lemma_counted_own(institutions, reader, served, served.len() as int);
    lemma_take_all(served);
}

/// Counting records of the reader's own moves no counter.
proof fn lemma_counted_own(
    institutions: Map<Seq<u8>, InstitutionView>,
    reader: Seq<u8>,
    served: Seq<CreditRecordView>,
    n: int,
)
    requires
        0 <= n <= served.len(),
        forall|k: int| 0 <= k < served.len() ==> (#[trigger] served[k]).institution_id == reader,
    ensures
        counted(institutions, reader, served.take(n)) == institutions,
    decreases n,
{
    if n > 0 {
        lemma_counted_own(institutions, reader, served, n - 1);
        assert(served.take(n).drop_last() =~= served.take(n - 1));
        assert(served.take(n).last() == served[n - 1]);
    }
}

/// A reward never exceeds the query price, is the whole
/// price at a share of one hundred percent, and at a share of zero, or a
/// price of zero, no reward is due, so that no reward transfer is prepared.
pub proof fn law_reward_is_a_share(registry: AdminService, id: Seq<u8>, base_amount: u64, ratio: u32)
    ensures
        ratio <= 100 ==> 0 <= reward_amount(base_amount, ratio) <= base_amount,
        reward_amount(base_amount, 100) == base_amount,
        reward_amount(base_amount, 0) == 0,
        reward_amount(0, ratio) == 0,
        registry.institutions().contains_key(id) && (registry.institutions()[id].reward_share_ratio
            == 0 || registry.institutions()[id].query_price == 0) ==> reward_due(registry, id)
            is None,
{
    assert(ratio <= 100 ==> 0 <= (base_amount as int * ratio as int) / 100 <= base_amount)
        by (nonlinear_arith);
    assert((base_amount as int * 100) / 100 == base_amount) by (nonlinear_arith);
    assert((base_amount as int * 0) / 100 == 0) by (nonlinear_arith);
    assert((0 * ratio as int) / 100 == 0) by (nonlinear_arith);
    if registry.institutions().contains_key(id) {
        let inst = registry.institutions()[id];
        assert((inst.query_price as int * 0) / 100 == 0) by (nonlinear_arith);
        assert((0 * (inst.reward_share_ratio as u32) as int) / 100 == 0) by (nonlinear_arith);
    }
}

/// No more records of a batch are accepted than are submitted.
pub proof fn law_batch_accepts_no_more_than_submitted(
    institutions: Map<Seq<u8>, InstitutionView>,
    requests: Seq<SubmissionView>,
    now: u64,
    counter: u64,
    n: int,
)
    requires
        0 <= n,
    ensures
        accepted_ids(institutions, requests, now, counter, n).len() <= n,
    decreases n,
{
    if n > 0 {
        law_batch_accepts_no_more_than_submitted(institutions, requests, now, counter, n - 1);
    }
}

/// Where every submission of a batch comes from a registered
/// institution and passes validation, every one of them is accepted.
pub proof fn law_valid_batch_is_accepted_whole(
    institutions: Map<Seq<u8>, InstitutionView>,
    requests: Seq<SubmissionView>,
    now: u64,
    counter: u64,
    n: int,
)
    requires
        0 <= n <= requests.len(),
        forall|i: int| 0 <= i < n ==> is_accepted(institutions, #[trigger] requests[i]),
    ensures
        accepted_ids(institutions, requests, now, counter, n).len() == n,
    decreases n,
{
    if n > 0 {
        law_valid_batch_is_accepted_whole(institutions, requests, now, counter, n - 1);
    }
}

/// Counting queries moves counters only: the same institutions stay
/// registered, at the same prices, reward shares, names and service
/// switches, with the same uploads and calls.
pub proof fn law_counting_keeps_settings(
    institutions: Map<Seq<u8>, InstitutionView>,
    reader: Seq<u8>,
    served: Seq<CreditRecordView>,
)
    ensures
        counted(institutions, reader, served).dom() == institutions.dom(),
        forall|id: Seq<u8>| #[trigger]
            institutions.contains_key(id) ==> {
                let after = counted(institutions, reader, served)[id];
                &&& after.query_price == institutions[id].query_price
                &&& after.reward_share_ratio == institutions[id].reward_share_ratio
                &&& after.data_service_enabled == institutions[id].data_service_enabled
                &&& after.name == institutions[id].name
                &&& after.data_uploads == institutions[id].data_uploads
                &&& after.api_calls == institutions[id].api_calls
            },
    decreases served.len(),
{
    if served.len() > 0 {
        law_counting_keeps_settings(institutions, reader, served.drop_last());
        let before = counted(institutions, reader, served.drop_last());
        let mid = changed(before, reader, |inst: InstitutionView| after_outbound_query(inst));
        assert(mid.dom() =~= before.dom());
        let last = changed(
            mid,
            served.last().institution_id,
            |inst: InstitutionView| after_inbound_query(inst),
        );
        assert(last.dom() =~= before.dom());
    }
}

/// The log is bounded: a log of at most a thousand entries holds at most a
/// thousand entries after another one has been added, and that one is its
/// newest.
pub proof fn law_log_is_bounded(entries: Seq<LogEntryView>, entry: LogEntryView)
    requires
        entries.len() <= 1000,
    ensures
        logged(entries, entry).len() <= 1000,
        logged(entries, entry).last() == entry,
{
}

} // verus!
