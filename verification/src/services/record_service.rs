//! The record lifecycle manager: submissions are validated, encrypted, bound
//! to a proof and stored; stored records are verified once and served to
//! institutions, which owe a fee for the records of others.

use vstd::prelude::*;
use vstd::string::*;
use vstd::utf8::encode_utf8;
use crate::models::account::AccountId;
use crate::models::institution::{Institution, InstitutionView};
use crate::models::record::{
    CreditRecord,
    CreditRecordView,
    RecordContent,
    RecordContentView,
    RecordData,
    RecordQueryParams,
    RecordStatus,
    RecordSubmissionRequest,
    RecordType,
    TokenOperation,
    record_views,
    settlement_for,
};
use crate::services::admin_institution_service::{
    after_read,
    after_upload,
    changed,
    AdminService,
};
use crate::services::crypto_service::{ciphertext, iv_at, plaintext, CryptoService, KEY_LEN};
use crate::services::storage_service::{storage_key, StorageService};
use crate::services::zk_proof_service::{proof_of, ZKProofService};
use crate::utils::bytes::{bytes_equal, copy_bytes};
use crate::utils::error::{Error, ErrorKind};
use crate::utils::keyed::VecMap;
use crate::utils::principal::{account_text, principal_text};
use crate::utils::text::{decimal_text, join, u64_to_decimal};

verus! {

/// The bit pattern of the double 100.0, the highest interest rate.
pub const MAX_RATE_BITS: u64 = 0x4059_0000_0000_0000;

/// Whether the bit pattern of a double denotes a rate above zero and at most
/// one hundred percent. Among the patterns of positive doubles a larger
/// pattern is a larger number, and the patterns of negative numbers,
/// infinities and NaN all lie above that of 100.0.
pub open spec fn rate_in_range(bits: u64) -> bool {
    0 < bits <= 0x4059_0000_0000_0000
}

/// Why a content is refused for a record type, if it is.
pub open spec fn validation_error(
    record_type: RecordType,
    content: RecordContentView,
) -> Option<Seq<char>> {
    match (record_type, content) {
        (RecordType::LoanRecord, RecordContentView::Loan(loan)) => {
            if loan.amount == 0 || loan.loan_id.len() == 0 || loan.term_months == 0 {
                Some("Invalid loan data: missing required fields"@)
            } else if !rate_in_range(loan.interest_rate_bits) {
                Some("Invalid loan data: interest rate out of range"@)
            } else {
                None
            }
        },
        (RecordType::RepaymentRecord, RecordContentView::Repayment(repayment)) => {
            if repayment.amount == 0 || repayment.loan_id.len() == 0 {
                Some("Invalid repayment data: missing required fields"@)
            } else {
                None
            }
        },
        (RecordType::NotificationRecord, RecordContentView::Notification(notice)) => {
            if notice.amount == 0 || notice.days == 0 {
                Some("Invalid overdue data: missing required fields"@)
            } else {
                None
            }
        },
        _ => Some("Record type mismatch"@),
    }
}

/// The identifier of the record created at time `now` under the counter
/// value `counter`.
pub open spec fn record_id_text(now: u64, counter: u64) -> Seq<char> {
    "REC-"@ + decimal_text(now as nat) + "-"@ + decimal_text(counter as nat)
}

/// The identifiers of a list of records, in order.
pub open spec fn record_ids(records: Seq<CreditRecordView>) -> Seq<Seq<char>> {
    records.map_values(|r: CreditRecordView| r.id)
}

/// The record with identifier `id`; meaningful when there is one.
pub open spec fn record_with_id(records: Seq<CreditRecordView>, id: Seq<char>) -> CreditRecordView {
    records[record_ids(records).index_of(id)]
}

/// Whether a record with identifier `id` is among `records`.
pub open spec fn has_record(records: Seq<CreditRecordView>, id: Seq<char>) -> bool {
    record_ids(records).contains(id)
}

/// `records` with `record` stored: in the place of the record that has its
/// identifier, if there is one, else at the end.
pub open spec fn upsert(
    records: Seq<CreditRecordView>,
    record: CreditRecordView,
) -> Seq<CreditRecordView> {
    if has_record(records, record.id) {
        records.update(record_ids(records).index_of(record.id), record)
    } else {
        records.push(record)
    }
}

/// Mathematical value of a submission.
pub struct SubmissionView {
    pub institution_id: Seq<u8>,
    pub record_type: RecordType,
    pub user_did: Seq<char>,
    pub event_date: Seq<char>,
    pub content: RecordContentView,
    pub content_bytes: Seq<u8>,
}

impl View for RecordSubmissionRequest {
    type V = SubmissionView;

    open spec fn view(&self) -> SubmissionView {
        SubmissionView {
            institution_id: self.institution_id@,
            record_type: self.record_type,
            user_did: self.user_did@,
            event_date: self.event_date@,
            content: self.content@,
            content_bytes: self.content_bytes@,
        }
    }
}

impl Clone for RecordSubmissionRequest {
    fn clone(&self) -> (copy: Self)
        ensures
            copy@ == self@,
    {
        RecordSubmissionRequest {
            institution_id: self.institution_id.clone(),
            record_type: self.record_type,
            user_did: self.user_did.clone(),
            event_date: self.event_date.clone(),
            content: self.content.clone(),
            content_bytes: copy_bytes(self.content_bytes.as_slice()),
        }
    }
}

/// The record lifecycle manager.
pub struct RecordService {
    storage_canister_id: AccountId,
    records: VecMap<String, CreditRecord>,
    zk_service: ZKProofService,
    crypto_service: CryptoService,
}

impl RecordService {
    /// The records, in the order in which their identifiers first appeared.
    pub closed spec fn records(&self) -> Seq<CreditRecordView> {
        self.records.values().map_values(|r: CreditRecord| r@)
    }

    /// The account of the storage service that records are attributed to.
    pub closed spec fn storage_account(&self) -> Seq<u8> {
        self.storage_canister_id@
    }

    /// The payload key.
    pub closed spec fn payload_key(&self) -> Seq<u8> {
        self.crypto_service.keys().current_key()
    }

    /// The verification key of the proof generator.
    pub closed spec fn verification_key(&self) -> Seq<u8> {
        self.zk_service.verification_key()
    }

    /// Records are stored under their own identifiers, each identifier once,
    /// the keys are well formed and the storage account has a textual form.
    pub closed spec fn wf(&self) -> bool {
        &&& self.records.wf()
        &&& self.records.keys() == record_ids(self.records())
        &&& self.crypto_service.wf()
        &&& self.storage_canister_id@.len() <= 29
    }

    /// In a well-formed service no two records share an identifier, the
    /// payload key is 32 bytes long and the storage account at most 29.
    pub proof fn lemma_wf(&self)
        requires
            self.wf(),
        ensures
            record_ids(self.records()).no_duplicates(),
            self.payload_key().len() == 32,
            self.storage_account().len() <= 29,
    {
        self.records.lemma_wf();
    }

    /// The record that a submission creates at time `now` under the counter
    /// value `counter`, for an institution with the given names, in the given
    /// status and at the given query price.
    pub open spec fn built_record(
        &self,
        request: SubmissionView,
        institution_name: Seq<char>,
        institution_full_name: Seq<char>,
        status: RecordStatus,
        query_price: u64,
        now: u64,
        counter: u64,
    ) -> CreditRecordView {
        let encrypted = ciphertext(request.content_bytes, self.payload_key(), iv_at(now));
        CreditRecordView {
            id: record_id_text(now, counter),
            institution_id: request.institution_id,
            institution_name,
            institution_full_name,
            record_type: request.record_type,
            user_did: request.user_did,
            event_date: request.event_date,
            content: request.content,
            encrypted_content: encrypted,
            proof: proof_of(encrypted, self.verification_key()),
            canister_id: principal_text(self.storage_account()),
            timestamp: now,
            status,
            reward_amount: None,
            query_price,
        }
    }

    /// A service without records, whose keys are derived from `seed_time`.
    pub fn new(storage_canister_id: AccountId, seed_time: u64) -> (service: Self)
        requires
            storage_canister_id@.len() <= 29,
        ensures
            service.wf(),
            service.records() == Seq::<CreditRecordView>::empty(),
            service.storage_account() == storage_canister_id@,
            service.verification_key() == Seq::<u8>::empty(),
    {
        let service = RecordService {
            storage_canister_id,
            records: VecMap::new(),
            zk_service: ZKProofService::new(),
            crypto_service: CryptoService::new(seed_time),
        };
        assert(service.records() =~= Seq::<CreditRecordView>::empty());
        assert(record_ids(service.records()) =~= Seq::<Seq<char>>::empty());
        service
    }

    /// The identifier for a record created at `timestamp` under the counter
    /// value `counter`.
    pub fn generate_record_id(&self, timestamp: u64, counter: u64) -> (id: String)
        ensures
            id@ == record_id_text(timestamp, counter),
    {
        let time_text = u64_to_decimal(timestamp);
        let counter_text = u64_to_decimal(counter);
        let mut id = join("REC-", time_text.as_str());
        id.append("-");
        id.append(counter_text.as_str());
        id
    }

    /// Why `content` is refused for `record_type`, if it is.
    pub fn check_content(record_type: &RecordType, content: &RecordContent) -> (refusal: Option<
        &'static str,
    >)
        ensures
            match refusal {
                Some(msg) => validation_error(*record_type, content@) == Some(msg@),
                None => validation_error(*record_type, content@).is_none(),
            },
    {
        match (record_type, content) {
            (RecordType::LoanRecord, RecordContent::Loan(loan)) => {
                if loan.amount == 0 || loan.loan_id.as_str().is_empty() || loan.term_months == 0 {
                    Some("Invalid loan data: missing required fields")
                } else if loan.interest_rate_bits == 0 || loan.interest_rate_bits > MAX_RATE_BITS {
                    Some("Invalid loan data: interest rate out of range")
                } else {
                    None
                }
            },
            (RecordType::RepaymentRecord, RecordContent::Repayment(repayment)) => {
                if repayment.amount == 0 || repayment.loan_id.as_str().is_empty() {
                    Some("Invalid repayment data: missing required fields")
                } else {
                    None
                }
            },
            (RecordType::NotificationRecord, RecordContent::Notification(notice)) => {
                if notice.amount == 0 || notice.days == 0 {
                    Some("Invalid overdue data: missing required fields")
                } else {
                    None
                }
            },
            _ => Some("Record type mismatch"),
        }
    }

    /// Builds the record of a submission, stores it under its identifier,
    /// stores its payload and chain-index entry and counts the upload.
    fn persist(
        &mut self,
        registry: &mut AdminService,
        storage: &mut StorageService,
        request: &RecordSubmissionRequest,
        institution: &Institution,
        status: RecordStatus,
        query_price: u64,
        now: u64,
        counter: u64,
    ) -> (id: String)
        requires
            old(self).wf(),
            old(registry).wf(),
            old(storage).wf(),
        ensures
            final(self).wf(),
            final(registry).wf(),
            final(storage).wf(),
            id@ == record_id_text(now, counter),
            persisted(
                *old(self),
                *final(self),
                *old(registry),
                *final(registry),
                *old(storage),
                *final(storage),
                old(self).built_record(
                    request@,
                    institution@.name,
                    institution@.full_name,
                    status,
                    query_price,
                    now,
                    counter,
                ),
                now,
            ),
    {
        proof {
            self.lemma_wf();
            self.records.lemma_wf();
        }
        let record_id = self.generate_record_id(now, counter);
        let encrypted_content = self.crypto_service.encrypt(
            request.content_bytes.as_slice(),
            now,
        ).unwrap();
        let proof = self.zk_service.generate_proof(encrypted_content.as_slice());
        let record = CreditRecord {
            id: record_id.clone(),
            institution_id: request.institution_id.clone(),
            institution_name: institution.name.clone(),
            institution_full_name: institution.full_name.clone(),
            record_type: request.record_type,
            user_did: request.user_did.clone(),
            event_date: request.event_date.clone(),
            content: request.content.clone(),
            encrypted_content: copy_bytes(encrypted_content.as_slice()),
            proof: copy_bytes(proof.as_slice()),
            canister_id: account_text(self.storage_canister_id.as_bytes()),
            timestamp: now,
            status,
            reward_amount: None,
            query_price,
        };
        let ghost built = record@;
        let ghost before = self.records();
        self.records.insert(record_id.clone(), record);
        proof {
            assert(self.records() =~= upsert(before, built));
            assert(record_ids(self.records()) =~= self.records.keys());
        }
        let storage_id = storage.store_data(encrypted_content, now).unwrap();
        let _ = storage.store_on_chain(record_id.clone(), storage_id, proof);
        registry.institution_record_data_upload(&request.institution_id, 1, now);
        record_id
    }

    /// Checks a submission. A content that fits its record type and holds
    /// the required fields passes, and nothing changes. A content that does
    /// not is recorded all the same, as a rejected record at the query price
    /// zero, with its payload, its proof and the upload counted, and the call
    /// fails with `ValidationError` and the reason; but where the submitting
    /// institution is not registered it fails with `InvalidData` instead and
    /// records nothing.
    pub fn validate_record_content(
        &mut self,
        registry: &mut AdminService,
        storage: &mut StorageService,
        request: &RecordSubmissionRequest,
        now: u64,
        counter: u64,
    ) -> (out: Result<(), Error>)
        requires
            old(self).wf(),
            old(registry).wf(),
            old(storage).wf(),
        ensures
            final(self).wf(),
            final(registry).wf(),
            final(storage).wf(),
            match validation_error(request@.record_type, request@.content) {
                None => {
                    &&& out is Ok
                    &&& unchanged(
                        *old(self),
                        *final(self),
                        *old(registry),
                        *final(registry),
                        *old(storage),
                        *final(storage),
                    )
                },
                Some(reason) => if old(registry).institutions().contains_key(
                    request@.institution_id,
                ) {
                    let inst = old(registry).institutions()[request@.institution_id];
                    &&& out is Err
                    &&& out->Err_0 is ValidationError
                    &&& out->Err_0->ValidationError_0@ == reason
                    &&& persisted(
                        *old(self),
                        *final(self),
                        *old(registry),
                        *final(registry),
                        *old(storage),
                        *final(storage),
                        old(self).built_record(
                            request@,
                            inst.name,
                            inst.full_name,
                            RecordStatus::Rejected,
                            0,
                            now,
                            counter,
                        ),
                        now,
                    )
                } else {
                    &&& out is Err
                    &&& out->Err_0 is InvalidData
                    &&& out->Err_0->InvalidData_0@ == "机构不存在"@
                    &&& unchanged(
                        *old(self),
                        *final(self),
                        *old(registry),
                        *final(registry),
                        *old(storage),
                        *final(storage),
                    )
                },
            },
    {
        let reason = match Self::check_content(&request.record_type, &request.content) {
            Some(reason) => reason,
            None => {
                return Ok(());
            },
        };
        let institution = match registry.get_institution(&request.institution_id) {
            Some(inst) => inst,
            None => {
                return Err(Error::InvalidData(String::from_str("机构不存在")));
            },
        };
        let _ = self.persist(
            registry,
            storage,
            request,
            &institution,
            RecordStatus::Rejected,
            0,
            now,
            counter,
        );
        Err(Error::ValidationError(String::from_str(reason)))
    }

    /// Records a submission made at time `now` under the counter value
    /// `counter`, and hands back the new record's identifier.
    ///
    /// A submission that passes validation is stored as a pending record at
    /// the query price of its institution. One that does not is stored as a
    /// rejected record at the price zero, and the call fails with
    /// `ValidationError`. Either way the payload is encrypted, its proof is
    /// made over the encrypted bytes, payload and chain-index entry are
    /// stored, and the upload is counted. Where the institution is not
    /// registered the call fails with `InvalidData` and nothing changes.
    pub fn submit_record(
        &mut self,
        registry: &mut AdminService,
        storage: &mut StorageService,
        request: RecordSubmissionRequest,
        now: u64,
        counter: u64,
    ) -> (out: Result<String, Error>)
        requires
            old(self).wf(),
            old(registry).wf(),
            old(storage).wf(),
        ensures
            final(self).wf(),
            final(registry).wf(),
            final(storage).wf(),
            submission_outcome(
                *old(self),
                *final(self),
                *old(registry),
                *final(registry),
                *old(storage),
                *final(storage),
                request@,
                now,
                counter,
                out,
            ),
    {
        match self.validate_record_content(registry, storage, &request, now, counter) {
            Ok(_) => {},
            Err(e) => {
                return Err(e);
            },
        }
        let institution = match registry.get_institution(&request.institution_id) {
            Some(inst) => inst,
            None => {
                return Err(Error::InvalidData(String::from_str("机构不存在")));
            },
        };
        let record_id = self.persist(
            registry,
            storage,
            &request,
            &institution,
            RecordStatus::Pending,
            institution.query_price,
            now,
            counter,
        );
        Ok(record_id)
    }

    /// Verifies a pending record once and for all.
    ///
    /// Fails, and changes nothing, with `InvalidStatus` unless the record
    /// exists and is pending; with `InvalidProof` unless the chain index
    /// holds the record's proof, byte for byte; with `EncryptionFailed` where
    /// the encrypted content cannot be decrypted; with `InvalidData` where the
    /// decrypted bytes differ from `content_bytes`, the serialized form of the
    /// record's content. Otherwise the record's proof is made anew over its
    /// encrypted content: where it is the same the record becomes confirmed
    /// and the result is `true`, else it becomes rejected and the result is
    /// `false`.
    pub fn verify_and_commit(
        &mut self,
        storage: &StorageService,
        record_id: &str,
        content_bytes: &[u8],
    ) -> (out: Result<bool, Error>)
        requires
            old(self).wf(),
            storage.wf(),
        ensures
            final(self).wf(),
            same_setup(*old(self), *final(self)),
            match commit_verdict(
                old(self).records(),
                storage.chain(),
                old(self).payload_key(),
                old(self).verification_key(),
                record_id@,
                content_bytes@,
            ) {
                Err(kind) => out is Err && out->Err_0.kind() == kind,
                Ok(valid) => out == Ok::<bool, Error>(valid),
            },
            final(self).records() == after_commit(
                old(self).records(),
                storage.chain(),
                old(self).payload_key(),
                old(self).verification_key(),
                record_id@,
                content_bytes@,
            ),
            out is Err && out->Err_0 is EncryptionFailed ==> out->Err_0->EncryptionFailed_0@
                == "Decryption failed: Invalid data length"@,
            out is Err && out->Err_0 is InvalidData ==> out->Err_0->InvalidData_0@
                == "Content integrity check failed"@,
    {
        proof {
            self.lemma_wf();
            self.records.lemma_wf();
        }
        let key = String::from_str(record_id);
        let i = match self.records.find(&key) {
            Some(i) => i,
            None => {
                return Err(Error::InvalidStatus);
            },
        };
        let record = self.records.value_at(i);
        assert(record@ == record_with_id(self.records(), record_id@));
        if record.status != RecordStatus::Pending {
            return Err(Error::InvalidStatus);
        }
        let chain_data = match storage.get_chain_data(record_id) {
            Some(entry) => entry,
            None => {
                return Err(Error::InvalidProof);
            },
        };
        if !bytes_equal(chain_data.1.as_slice(), record.proof.as_slice()) {
            return Err(Error::InvalidProof);
        }
        let decrypted = match self.crypto_service.decrypt(record.encrypted_content.as_slice()) {
            Ok(bytes) => bytes,
            Err(_) => {
                return Err(
                    Error::EncryptionFailed(
                        String::from_str("Decryption failed: Invalid data length"),
                    ),
                );
            },
        };
        if !bytes_equal(decrypted.as_slice(), content_bytes) {
            return Err(Error::InvalidData(String::from_str("Content integrity check failed")));
        }
        let is_valid = self.zk_service.verify_proof(record, record.proof.as_slice());
        let mut updated = record.clone();
        updated.status = if is_valid {
            RecordStatus::Confirmed
        } else {
            RecordStatus::Rejected
        };
        let ghost before = self.records();
        let ghost updated_view = updated@;
        self.records.set_value_at(i, updated);
        proof {
            assert(self.records() =~= before.update(i as int, updated_view));
            assert(record_ids(self.records()) =~= self.records.keys());
        }
        Ok(is_valid)
    }

    /// The flat form of a record: its amount, subject, type tag and time,
    /// and the fields that its kind of content has. Never fails.
    pub fn reconstruct_record_data(&self, record: &CreditRecord) -> (out: Result<RecordData, Error>)
        ensures
            out is Ok,
            out->Ok_0.user_id@ == encode_utf8(record@.user_did),
            out->Ok_0.record_type == record@.record_type.tag(),
            out->Ok_0.timestamp == record@.timestamp,
            match record@.content {
                RecordContentView::Loan(loan) => {
                    &&& out->Ok_0.amount == loan.amount
                    &&& out->Ok_0.term_months == Some(loan.term_months)
                    &&& out->Ok_0.interest_rate_bits == Some(loan.interest_rate_bits)
                    &&& out->Ok_0.loan_id is Some
                    &&& out->Ok_0.loan_id->Some_0@ == loan.loan_id
                    &&& out->Ok_0.days is None
                    &&& out->Ok_0.period_amount is None
                },
                RecordContentView::Repayment(repayment) => {
                    &&& out->Ok_0.amount == repayment.amount
                    &&& out->Ok_0.term_months is None
                    &&& out->Ok_0.interest_rate_bits is None
                    &&& out->Ok_0.loan_id is Some
                    &&& out->Ok_0.loan_id->Some_0@ == repayment.loan_id
                    &&& out->Ok_0.days is None
                    &&& out->Ok_0.period_amount is None
                },
                RecordContentView::Notification(notice) => {
                    &&& out->Ok_0.amount == notice.amount
                    &&& out->Ok_0.term_months is None
                    &&& out->Ok_0.interest_rate_bits is None
                    &&& out->Ok_0.loan_id is None
                    &&& out->Ok_0.days == Some(notice.days)
                    &&& out->Ok_0.period_amount == Some(notice.period_amount)
                },
            },
    {
        let user_id = record.user_did.as_str().as_bytes_vec();
        let record_type = record.record_type.to_u8();
        match &record.content {
            RecordContent::Loan(loan) => Ok(
                RecordData {
                    amount: loan.amount,
                    user_id,
                    record_type,
                    timestamp: record.timestamp,
                    term_months: Some(loan.term_months),
                    interest_rate_bits: Some(loan.interest_rate_bits),
                    loan_id: Some(loan.loan_id.clone()),
                    days: None,
                    period_amount: None,
                },
            ),
            RecordContent::Repayment(repayment) => Ok(
                RecordData {
                    amount: repayment.amount,
                    user_id,
                    record_type,
                    timestamp: record.timestamp,
                    term_months: None,
                    interest_rate_bits: None,
                    loan_id: Some(repayment.loan_id.clone()),
                    days: None,
                    period_amount: None,
                },
            ),
            RecordContent::Notification(notice) => Ok(
                RecordData {
                    amount: notice.amount,
                    user_id,
                    record_type,
                    timestamp: record.timestamp,
                    term_months: None,
                    interest_rate_bits: None,
                    loan_id: None,
                    days: Some(notice.days),
                    period_amount: Some(notice.period_amount),
                },
            ),
        }
    }

    /// Number of records.
    pub fn record_count(&self) -> (n: usize)
        requires
            self.wf(),
        ensures
            n == self.records().len(),
    {
        self.records.len()
    }

    /// The record at a position of the record list.
    pub fn record_at(&self, i: usize) -> (record: &CreditRecord)
        requires
            self.wf(),
            i < self.records().len(),
        ensures
            record@ == self.records()[i as int],
    {
        self.records.value_at(i)
    }

    /// The record with the given identifier, whatever its state in the store.
    pub fn get_record(&self, record_id: &str) -> (found: Option<CreditRecord>)
        requires
            self.wf(),
        ensures
            match found {
                Some(record) => has_record(self.records(), record_id@) && record@
                    == record_with_id(self.records(), record_id@),
                None => !has_record(self.records(), record_id@),
            },
    {
        proof {
            self.records.lemma_wf();
        }
        let key = String::from_str(record_id);
        match self.records.find(&key) {
            Some(i) => Some(self.records.value_at(i).clone()),
            None => None,
        }
    }

    /// Whether a record's payload can still be read: the chain index leads to
    /// a stored payload that decrypts.
    pub fn is_accessible(storage: &StorageService, record_id: &str) -> (ok: bool)
        requires
            storage.wf(),
        ensures
            ok == accessible(storage.chain(), storage.stored(), record_id@),
    {
        match storage.get_chain_data(record_id) {
            Some(entry) => match storage.get_data(entry.0.as_str()) {
                Some(data) => data.len() >= KEY_LEN,
                None => false,
            },
            None => false,
        }
    }

    /// The records that pass a filter, in record order. Nothing changes and
    /// no fee falls due.
    pub fn query_records(&self, params: RecordQueryParams) -> (found: Vec<CreditRecord>)
        requires
            self.wf(),
        ensures
            record_views(found@) == self.records().filter(
                |r: CreditRecordView| record_matches(r, params),
            ),
    {
        let ghost pred = |r: CreditRecordView| record_matches(r, params);
        let n = self.records.len();
        let mut found: Vec<CreditRecord> = Vec::new();
        let mut i: usize = 0;
        proof {
            reveal(Seq::filter);
            assert(self.records().take(0) =~= Seq::<CreditRecordView>::empty());
            assert(record_views(found@) =~= Seq::<CreditRecordView>::empty());
        }
        while i < n
            invariant
                self.wf(),
                n == self.records().len(),
                0 <= i <= n,
                pred == (|r: CreditRecordView| record_matches(r, params)),
                record_views(found@) == self.records().take(i as int).filter(pred),
            decreases n - i,
        {
            let record = self.records.value_at(i);
            let keep = Self::matches_params(record, &params);
            proof {
                reveal(Seq::filter);
                let next = self.records().take(i + 1);
                assert(next.drop_last() =~= self.records().take(i as int));
                assert(next.last() == record@);
            }
            if keep {
                let copy = record.clone();
                let ghost before = found@;
                found.push(copy);
                assert(record_views(found@) =~= record_views(before).push(record@));
            }
            i += 1;
        }
        assert(self.records().take(n as int) =~= self.records());
        found
    }

    /// Whether a record passes a filter.
    pub fn matches_params(record: &CreditRecord, params: &RecordQueryParams) -> (keep: bool)
        ensures
            keep == record_matches(record@, *params),
    {
        let by_institution = match &params.institution_id {
            Some(id) => record.institution_id == *id,
            None => true,
        };
        let by_subject = match &params.user_did {
            Some(did) => record.user_did == *did,
            None => true,
        };
        let by_type = match &params.record_type {
            Some(kind) => record.record_type == *kind,
            None => true,
        };
        let by_status = match &params.status {
            Some(status) => record.status == *status,
            None => true,
        };
        by_institution && by_subject && by_type && by_status
    }

    /// Serves one record to an institution at time `now`.
    ///
    /// The record is served when it exists and its payload can still be read.
    /// The read is then counted for the reader and, for a record of another
    /// institution, for its owner; where that owner is registered a
    /// settlement at the owner's query price falls due and is handed back
    /// with the record. A record that cannot be served changes nothing.
    pub fn get_record_by_id(
        &self,
        registry: &mut AdminService,
        storage: &StorageService,
        record_id: &str,
        institution_id: &AccountId,
        now: u64,
    ) -> (out: (Option<CreditRecord>, Option<TokenOperation>))
        requires
            self.wf(),
            old(registry).wf(),
            storage.wf(),
        ensures
            final(registry).wf(),
            same_registry_but_institutions(*old(registry), *final(registry)),
            if has_record(self.records(), record_id@) && accessible(
                storage.chain(),
                storage.stored(),
                record_id@,
            ) {
                let record = record_with_id(self.records(), record_id@);
                &&& out.0 is Some
                &&& out.0->Some_0@ == record
                &&& final(registry).institutions() == after_read(
                    old(registry).institutions(),
                    institution_id@,
                    record.institution_id,
                    1,
                    now,
                )
                &&& out.1 is Some <==> record.institution_id != institution_id@
                    && old(registry).institutions().contains_key(record.institution_id)
                &&& out.1 is Some ==> out.1->Some_0@ == settlement_for(
                    institution_id@,
                    record,
                    old(registry).institutions()[record.institution_id].query_price,
                )
            } else {
                &&& out.0 is None
                &&& out.1 is None
                &&& final(registry).institutions() == old(registry).institutions()
            },
    {
        proof {
            self.records.lemma_wf();
        }
        let key = String::from_str(record_id);
        let i = match self.records.find(&key) {
            Some(i) => i,
            None => {
                return (None, None);
            },
        };
        if !Self::is_accessible(storage, record_id) {
            return (None, None);
        }
        let record = self.records.value_at(i);
        let due = registry.institution_record_api_call(institution_id, record, 1, now);
        (Some(record.clone()), due)
    }
}

/// Whether the chain index leads from a record to a stored payload that is
/// long enough to decrypt.
pub open spec fn accessible(
    chain: Map<Seq<char>, (Seq<char>, Seq<u8>)>,
    stored: Map<Seq<char>, Seq<u8>>,
    id: Seq<char>,
) -> bool {
    &&& chain.contains_key(id)
    &&& stored.contains_key(chain[id].0)
    &&& stored[chain[id].0].len() >= 32
}

/// Whether a record passes a filter: it agrees with every field that the
/// filter gives, of institution, subject, record type and status.
pub open spec fn record_matches(record: CreditRecordView, params: RecordQueryParams) -> bool {
    &&& params.institution_id matches Some(id) ==> record.institution_id == id@
    &&& params.user_did matches Some(did) ==> record.user_did == did@
    &&& params.record_type matches Some(kind) ==> record.record_type == kind
    &&& params.status matches Some(status) ==> record.status == status
}

/// Starts a record service afresh: every record is dropped, the keys and the
/// storage account stay.
pub fn init_record_service(service: &mut RecordService)
    requires
        old(service).wf(),
    ensures
        final(service).wf(),
        same_setup(*old(service), *final(service)),
        final(service).records() == Seq::<CreditRecordView>::empty(),
{
    service.records.clear();
    assert(service.records() =~= Seq::<CreditRecordView>::empty());
    assert(record_ids(service.records()) =~= Seq::<Seq<char>>::empty());
}

/// The records after the verification of the record `id`: unchanged where
/// the verification fails with an error, else with that record confirmed or
/// rejected.
pub open spec fn after_commit(
    records: Seq<CreditRecordView>,
    chain: Map<Seq<char>, (Seq<char>, Seq<u8>)>,
    payload_key: Seq<u8>,
    verification_key: Seq<u8>,
    id: Seq<char>,
    content_bytes: Seq<u8>,
) -> Seq<CreditRecordView> {
    match commit_verdict(records, chain, payload_key, verification_key, id, content_bytes) {
        Err(_) => records,
        Ok(valid) => records.update(
            record_ids(records).index_of(id),
            record_with_id(records, id).with_status(verdict_status(valid)),
        ),
    }
}

/// The status that a verification gives a record.
pub open spec fn verdict_status(valid: bool) -> RecordStatus {
    if valid {
        RecordStatus::Confirmed
    } else {
        RecordStatus::Rejected
    }
}

/// What the verification of the record `id` comes to: the kind of error it
/// fails with, or whether the record's proof holds.
pub open spec fn commit_verdict(
    records: Seq<CreditRecordView>,
    chain: Map<Seq<char>, (Seq<char>, Seq<u8>)>,
    payload_key: Seq<u8>,
    verification_key: Seq<u8>,
    id: Seq<char>,
    content_bytes: Seq<u8>,
) -> Result<bool, ErrorKind> {
    let record = record_with_id(records, id);
    if !has_record(records, id) || record.status != RecordStatus::Pending {
        Err(ErrorKind::InvalidStatus)
    } else if !chain.contains_key(id) || chain[id].1 != record.proof {
        Err(ErrorKind::InvalidProof)
    } else if record.encrypted_content.len() < 32 {
        Err(ErrorKind::EncryptionFailed)
    } else if plaintext(record.encrypted_content, payload_key) != content_bytes {
        Err(ErrorKind::InvalidData)
    } else {
        Ok(record.proof == proof_of(record.encrypted_content, verification_key))
    }
}

/// Neither the records nor the registry nor the store have changed.
pub open spec fn unchanged(
    before: RecordService,
    after: RecordService,
    registry_before: AdminService,
    registry_after: AdminService,
    storage_before: StorageService,
    storage_after: StorageService,
) -> bool {
    &&& same_setup(before, after)
    &&& after.records() == before.records()
    &&& same_registry_but_institutions(registry_before, registry_after)
    &&& registry_after.institutions() == registry_before.institutions()
    &&& storage_after.stored() == storage_before.stored()
    &&& storage_after.chain() == storage_before.chain()
    &&& storage_after.chain_order() == storage_before.chain_order()
}

/// Both services work with the same keys for the same storage account.
pub open spec fn same_setup(before: RecordService, after: RecordService) -> bool {
    &&& after.storage_account() == before.storage_account()
    &&& after.payload_key() == before.payload_key()
    &&& after.verification_key() == before.verification_key()
}

/// Both registries hold the same institutions in the same order, under the
/// same names and for the same callers; their settings and counters may
/// differ.
pub open spec fn same_registry_but_institutions(before: AdminService, after: AdminService) -> bool {
    &&& after.order() == before.order()
    &&& after.names() == before.names()
    &&& after.registered_by() == before.registered_by()
}

/// `record` has been stored at time `now`: it stands among the records under
/// its identifier, its payload is stored under the key for `now`, the chain
/// index leads from the record to that key and the record's proof, and one
/// upload has been counted for its institution.
pub open spec fn persisted(
    before: RecordService,
    after: RecordService,
    registry_before: AdminService,
    registry_after: AdminService,
    storage_before: StorageService,
    storage_after: StorageService,
    record: CreditRecordView,
    now: u64,
) -> bool {
    &&& same_setup(before, after)
    &&& after.records() == upsert(before.records(), record)
    &&& same_registry_but_institutions(registry_before, registry_after)
    &&& registry_after.institutions() == changed(
        registry_before.institutions(),
        record.institution_id,
        |inst: InstitutionView| after_upload(inst, 1, now),
    )
    &&& storage_after.stored() == storage_before.stored().insert(
        storage_key(now),
        record.encrypted_content,
    )
    &&& storage_after.chain() == storage_before.chain().insert(
        record.id,
        (storage_key(now), record.proof),
    )
    &&& storage_after.chain_order() == if storage_before.chain().contains_key(record.id) {
        storage_before.chain_order()
    } else {
        storage_before.chain_order().push(record.id)
    }
}

/// The state that submissions work on: the records, the registered
/// institutions, the stored payloads and the chain index.
pub struct PipelineState {
    pub records: Seq<CreditRecordView>,
    pub institutions: Map<Seq<u8>, InstitutionView>,
    pub stored: Map<Seq<char>, Seq<u8>>,
    pub chain: Map<Seq<char>, (Seq<char>, Seq<u8>)>,
    pub chain_order: Seq<Seq<char>>,
}

/// The state held by a record service, a registry and a store together.
pub open spec fn pipeline_state(
    service: RecordService,
    registry: AdminService,
    storage: StorageService,
) -> PipelineState {
    PipelineState {
        records: service.records(),
        institutions: registry.institutions(),
        stored: storage.stored(),
        chain: storage.chain(),
        chain_order: storage.chain_order(),
    }
}

/// The state after `record` has been stored at time `now`.
pub open spec fn with_record(state: PipelineState, record: CreditRecordView, now: u64) -> PipelineState {
    PipelineState {
        records: upsert(state.records, record),
        institutions: changed(
            state.institutions,
            record.institution_id,
            |inst: InstitutionView| after_upload(inst, 1, now),
        ),
        stored: state.stored.insert(storage_key(now), record.encrypted_content),
        chain: state.chain.insert(record.id, (storage_key(now), record.proof)),
        chain_order: if state.chain.contains_key(record.id) {
            state.chain_order
        } else {
            state.chain_order.push(record.id)
        },
    }
}

/// Whether a submission is accepted: its institution is registered and its
/// content passes validation.
pub open spec fn is_accepted(
    institutions: Map<Seq<u8>, InstitutionView>,
    request: SubmissionView,
) -> bool {
    &&& institutions.contains_key(request.institution_id)
    &&& validation_error(request.record_type, request.content).is_none()
}

/// The state after a submission made to `service` at time `now` under the
/// counter value `counter`: unchanged for an unregistered institution, else
/// with the record of the submission, pending at the institution's query
/// price if it passes validation and rejected at the price zero if not.
pub open spec fn after_submission(
    service: RecordService,
    state: PipelineState,
    request: SubmissionView,
    now: u64,
    counter: u64,
) -> PipelineState {
    if !state.institutions.contains_key(request.institution_id) {
        state
    } else {
        let inst = state.institutions[request.institution_id];
        let valid = validation_error(request.record_type, request.content).is_none();
        with_record(
            state,
            service.built_record(
                request,
                inst.name,
                inst.full_name,
                if valid {
                    RecordStatus::Pending
                } else {
                    RecordStatus::Rejected
                },
                if valid {
                    inst.query_price
                } else {
                    0
                },
                now,
                counter,
            ),
            now,
        )
    }
}

/// A submission takes the pipeline from its state before to the state that
/// [`after_submission`] gives.
pub proof fn lemma_submission_state(
    before: RecordService,
    after: RecordService,
    registry_before: AdminService,
    registry_after: AdminService,
    storage_before: StorageService,
    storage_after: StorageService,
    request: SubmissionView,
    now: u64,
    counter: u64,
    out: Result<String, Error>,
)
    requires
        submission_outcome(
            before,
            after,
            registry_before,
            registry_after,
            storage_before,
            storage_after,
            request,
            now,
            counter,
            out,
        ),
    ensures
        pipeline_state(after, registry_after, storage_after) == after_submission(
            before,
            pipeline_state(before, registry_before, storage_before),
            request,
            now,
            counter,
        ),
        out is Ok <==> is_accepted(registry_before.institutions(), request),
        same_setup(before, after),
        same_registry_but_institutions(registry_before, registry_after),
        registry_after.institutions().dom() == registry_before.institutions().dom(),
{
    assert(registry_after.institutions().dom() =~= registry_before.institutions().dom());
}

/// What a submission does and returns.
pub open spec fn submission_outcome(
    before: RecordService,
    after: RecordService,
    registry_before: AdminService,
    registry_after: AdminService,
    storage_before: StorageService,
    storage_after: StorageService,
    request: SubmissionView,
    now: u64,
    counter: u64,
    out: Result<String, Error>,
) -> bool {
    if !registry_before.institutions().contains_key(request.institution_id) {
        &&& out is Err
        &&& out->Err_0 is InvalidData
        &&& out->Err_0->InvalidData_0@ == "机构不存在"@
        &&& unchanged(before, after, registry_before, registry_after, storage_before, storage_after)
    } else {
        let inst = registry_before.institutions()[request.institution_id];
        match validation_error(request.record_type, request.content) {
            Some(reason) => {
                &&& out is Err
                &&& out->Err_0 is ValidationError
                &&& out->Err_0->ValidationError_0@ == reason
                &&& persisted(
                    before,
                    after,
                    registry_before,
                    registry_after,
                    storage_before,
                    storage_after,
                    before.built_record(
                        request,
                        inst.name,
                        inst.full_name,
                        RecordStatus::Rejected,
                        0,
                        now,
                        counter,
                    ),
                    now,
                )
            },
            None => {
                &&& out is Ok
                &&& out->Ok_0@ == record_id_text(now, counter)
                &&& persisted(
                    before,
                    after,
                    registry_before,
                    registry_after,
                    storage_before,
                    storage_after,
                    before.built_record(
                        request,
                        inst.name,
                        inst.full_name,
                        RecordStatus::Pending,
                        inst.query_price,
                        now,
                        counter,
                    ),
                    now,
                )
            },
        }
    }
}

} // verus!
