//! Credit records, their contents and the requests that create and query
//! them.

use vstd::prelude::*;
use crate::models::account::AccountId;
use crate::utils::bytes::copy_bytes;

verus! {

/// The kind of credit event a record reports.
#[derive(Clone, Copy, Debug, PartialEq, Eq, Structural)]
pub enum RecordType {
    LoanRecord,
    RepaymentRecord,
    /// An overdue notice.
    NotificationRecord,
}

impl RecordType {
    /// The wire tag of a record type.
    pub open spec fn tag(self) -> u8 {
        match self {
            RecordType::LoanRecord => 1,
            RecordType::RepaymentRecord => 2,
            RecordType::NotificationRecord => 3,
        }
    }

    /// The wire tag of this record type: 1 for loans, 2 for repayments,
    /// 3 for overdue notices.
    pub fn to_u8(&self) -> (tag: u8)
        ensures
            tag == self.tag(),
    {
        match self {
            RecordType::LoanRecord => 1,
            RecordType::RepaymentRecord => 2,
            RecordType::NotificationRecord => 3,
        }
    }
}

/// Where a record stands in its life: `Pending` until it is verified, then
/// `Confirmed` or `Rejected` for good.
#[derive(Clone, Copy, Debug, PartialEq, Eq, Structural)]
pub enum RecordStatus {
    Pending,
    Confirmed,
    Rejected,
}

/// A loan. The yearly interest rate, in percent, is carried as the bit
/// pattern of an IEEE 754 double.
#[derive(Debug)]
pub struct LoanContent {
    pub amount: u64,
    pub loan_id: String,
    pub term_months: u64,
    pub interest_rate_bits: u64,
}

/// A repayment on an earlier loan.
#[derive(Debug)]
pub struct RepaymentContent {
    pub amount: u64,
    pub loan_id: String,
    pub repayment_date: String,
}

/// An overdue notice.
#[derive(Clone, Copy, Debug, PartialEq, Eq, Structural)]
pub struct NotificationContent {
    pub amount: u64,
    pub days: u64,
    pub period_amount: u64,
}

/// The typed payload of a record.
#[derive(Debug)]
pub enum RecordContent {
    Loan(LoanContent),
    Repayment(RepaymentContent),
    Notification(NotificationContent),
}

/// Mathematical value of a [`LoanContent`].
pub struct LoanContentView {
    pub amount: u64,
    pub loan_id: Seq<char>,
    pub term_months: u64,
    pub interest_rate_bits: u64,
}

/// Mathematical value of a [`RepaymentContent`].
pub struct RepaymentContentView {
    pub amount: u64,
    pub loan_id: Seq<char>,
    pub repayment_date: Seq<char>,
}

/// Mathematical value of a [`RecordContent`].
pub enum RecordContentView {
    Loan(LoanContentView),
    Repayment(RepaymentContentView),
    Notification(NotificationContent),
}

impl View for LoanContent {
    type V = LoanContentView;

    open spec fn view(&self) -> LoanContentView {
        LoanContentView {
            amount: self.amount,
            loan_id: self.loan_id@,
            term_months: self.term_months,
            interest_rate_bits: self.interest_rate_bits,
        }
    }
}

impl View for RepaymentContent {
    type V = RepaymentContentView;

    open spec fn view(&self) -> RepaymentContentView {
        RepaymentContentView {
            amount: self.amount,
            loan_id: self.loan_id@,
            repayment_date: self.repayment_date@,
        }
    }
}

impl View for RecordContent {
    type V = RecordContentView;

    open spec fn view(&self) -> RecordContentView {
        match self {
            RecordContent::Loan(loan) => RecordContentView::Loan(loan@),
            RecordContent::Repayment(repayment) => RecordContentView::Repayment(repayment@),
            RecordContent::Notification(notice) => RecordContentView::Notification(*notice),
        }
    }
}

impl Clone for LoanContent {
    fn clone(&self) -> (copy: Self)
        ensures
            copy@ == self@,
    {
        LoanContent {
            amount: self.amount,
            loan_id: self.loan_id.clone(),
            term_months: self.term_months,
            interest_rate_bits: self.interest_rate_bits,
        }
    }
}

impl Clone for RepaymentContent {
    fn clone(&self) -> (copy: Self)
        ensures
            copy@ == self@,
    {
        RepaymentContent {
            amount: self.amount,
            loan_id: self.loan_id.clone(),
            repayment_date: self.repayment_date.clone(),
        }
    }
}

impl Clone for RecordContent {
    fn clone(&self) -> (copy: Self)
        ensures
            copy@ == self@,
    {
        match self {
            RecordContent::Loan(loan) => RecordContent::Loan(loan.clone()),
            RecordContent::Repayment(repayment) => RecordContent::Repayment(repayment.clone()),
            RecordContent::Notification(notice) => RecordContent::Notification(*notice),
        }
    }
}

/// A credit event as it is kept by the service.
#[derive(Debug)]
pub struct CreditRecord {
    pub id: String,
    pub institution_id: AccountId,
    pub institution_name: String,
    pub institution_full_name: String,
    pub record_type: RecordType,
    pub user_did: String,
    pub event_date: String,
    pub content: RecordContent,
    pub encrypted_content: Vec<u8>,
    pub proof: Vec<u8>,
    pub canister_id: String,
    pub timestamp: u64,
    pub status: RecordStatus,
    pub reward_amount: Option<u64>,
    pub query_price: u64,
}

/// Mathematical value of a [`CreditRecord`].
pub struct CreditRecordView {
    pub id: Seq<char>,
    pub institution_id: Seq<u8>,
    pub institution_name: Seq<char>,
    pub institution_full_name: Seq<char>,
    pub record_type: RecordType,
    pub user_did: Seq<char>,
    pub event_date: Seq<char>,
    pub content: RecordContentView,
    pub encrypted_content: Seq<u8>,
    pub proof: Seq<u8>,
    pub canister_id: Seq<char>,
    pub timestamp: u64,
    pub status: RecordStatus,
    pub reward_amount: Option<u64>,
    pub query_price: u64,
}

impl View for CreditRecord {
    type V = CreditRecordView;

    open spec fn view(&self) -> CreditRecordView {
        CreditRecordView {
            id: self.id@,
            institution_id: self.institution_id@,
            institution_name: self.institution_name@,
            institution_full_name: self.institution_full_name@,
            record_type: self.record_type,
            user_did: self.user_did@,
            event_date: self.event_date@,
            content: self.content@,
            encrypted_content: self.encrypted_content@,
            proof: self.proof@,
            canister_id: self.canister_id@,
            timestamp: self.timestamp,
            status: self.status,
            reward_amount: self.reward_amount,
            query_price: self.query_price,
        }
    }
}

impl Clone for CreditRecord {
    fn clone(&self) -> (copy: Self)
        ensures
            copy@ == self@,
    {
        CreditRecord {
            id: self.id.clone(),
            institution_id: self.institution_id.clone(),
            institution_name: self.institution_name.clone(),
            institution_full_name: self.institution_full_name.clone(),
            record_type: self.record_type,
            user_did: self.user_did.clone(),
            event_date: self.event_date.clone(),
            content: self.content.clone(),
            encrypted_content: copy_bytes(self.encrypted_content.as_slice()),
            proof: copy_bytes(self.proof.as_slice()),
            canister_id: self.canister_id.clone(),
            timestamp: self.timestamp,
            status: self.status,
            reward_amount: self.reward_amount,
            query_price: self.query_price,
        }
    }
}

impl CreditRecordView {
    /// This record with another status and nothing else changed.
    pub open spec fn with_status(self, status: RecordStatus) -> CreditRecordView {
        CreditRecordView { status, ..self }
    }

    /// This record with another query price and nothing else changed.
    pub open spec fn with_query_price(self, query_price: u64) -> CreditRecordView {
        CreditRecordView { query_price, ..self }
    }
}

/// The flat form of a record's content that is handed to integrity checks.
/// The interest rate is carried as the bit pattern of an IEEE 754 double.
#[derive(Debug)]
pub struct RecordData {
    pub amount: u64,
    pub user_id: Vec<u8>,
    pub record_type: u8,
    pub timestamp: u64,
    pub term_months: Option<u64>,
    pub interest_rate_bits: Option<u64>,
    pub loan_id: Option<String>,
    pub days: Option<u64>,
    pub period_amount: Option<u64>,
}

/// A request to record one credit event. `content_bytes` is the serialized
/// form of `content`, as it came over the wire.
#[derive(Debug)]
pub struct RecordSubmissionRequest {
    pub institution_id: AccountId,
    pub record_type: RecordType,
    pub user_did: String,
    pub event_date: String,
    pub content: RecordContent,
    pub content_bytes: Vec<u8>,
}

/// The answer to an accepted submission.
#[derive(Debug)]
pub struct RecordSubmissionResponse {
    pub record_id: String,
    pub status: RecordStatus,
    pub timestamp: u64,
    pub reward_amount: Option<u64>,
}

/// Several submissions handed in together.
#[derive(Debug)]
pub struct BatchSubmissionRequest {
    pub records: Vec<RecordSubmissionRequest>,
}

/// The answer to a batch: how many records were accepted, how many were
/// refused, and the identifiers of the accepted ones in request order.
#[derive(Debug)]
pub struct BatchSubmissionResponse {
    pub submitted: usize,
    pub failed: usize,
    pub record_ids: Vec<String>,
    pub timestamp: u64,
    pub status: RecordStatus,
}

/// A filter over records; an absent field matches every record.
#[derive(Debug)]
pub struct RecordQueryParams {
    pub institution_id: Option<AccountId>,
    pub user_did: Option<String>,
    pub record_type: Option<RecordType>,
    pub start_date: Option<String>,
    pub end_date: Option<String>,
    pub status: Option<RecordStatus>,
}

/// Counts of records by status, and the rewards they earned.
#[derive(Clone, Copy, Debug, PartialEq, Eq, Structural)]
pub struct RecordStatistics {
    pub total_records: u64,
    pub pending_records: u64,
    pub confirmed_records: u64,
    pub rejected_records: u64,
    pub total_rewards: u64,
}

/// The records of one subject as served to an institution.
#[derive(Debug)]
pub struct InstitutionRecordResponse {
    pub institution_id: AccountId,
    pub institution_name: String,
    pub user_did: String,
    pub records: Vec<CreditRecord>,
}

/// A deduction from the credit score of an institution.
#[derive(Debug)]
pub struct CreditDeductionRecord {
    pub id: String,
    pub record_id: String,
    pub institution_id: AccountId,
    pub institution_name: String,
    pub deduction_points: u32,
    pub reason: String,
    pub data_quality_issue: String,
    pub created_at: u64,
    pub operator_id: AccountId,
    pub operator_name: String,
}

/// Mathematical value of a [`CreditDeductionRecord`].
pub struct CreditDeductionRecordView {
    pub id: Seq<char>,
    pub record_id: Seq<char>,
    pub institution_id: Seq<u8>,
    pub institution_name: Seq<char>,
    pub deduction_points: u32,
    pub reason: Seq<char>,
    pub data_quality_issue: Seq<char>,
    pub created_at: u64,
    pub operator_id: Seq<u8>,
    pub operator_name: Seq<char>,
}

impl View for CreditDeductionRecord {
    type V = CreditDeductionRecordView;

    open spec fn view(&self) -> CreditDeductionRecordView {
        CreditDeductionRecordView {
            id: self.id@,
            record_id: self.record_id@,
            institution_id: self.institution_id@,
            institution_name: self.institution_name@,
            deduction_points: self.deduction_points,
            reason: self.reason@,
            data_quality_issue: self.data_quality_issue@,
            created_at: self.created_at,
            operator_id: self.operator_id@,
            operator_name: self.operator_name@,
        }
    }
}

impl Clone for CreditDeductionRecord {
    fn clone(&self) -> (copy: Self)
        ensures
            copy@ == self@,
    {
        CreditDeductionRecord {
            id: self.id.clone(),
            record_id: self.record_id.clone(),
            institution_id: self.institution_id.clone(),
            institution_name: self.institution_name.clone(),
            deduction_points: self.deduction_points,
            reason: self.reason.clone(),
            data_quality_issue: self.data_quality_issue.clone(),
            created_at: self.created_at,
            operator_id: self.operator_id.clone(),
            operator_name: self.operator_name.clone(),
        }
    }
}

/// A request to deduct points from the credit score of an institution.
#[derive(Debug)]
pub struct CreateCreditRecordRequest {
    pub institution_id: AccountId,
    pub deduction_points: u32,
    pub reason: String,
    pub data_quality_issue: String,
}

/// A settlement that a cross-institution read has queued: the reader owes
/// the owner of `record` the owner's query price.
#[derive(Debug)]
pub struct TokenOperation {
    pub from_id: AccountId,
    pub to_id: AccountId,
    pub user_did: String,
    pub query_price: u64,
    pub record: CreditRecord,
}

/// Mathematical value of a [`TokenOperation`].
pub struct TokenOperationView {
    pub from_id: Seq<u8>,
    pub to_id: Seq<u8>,
    pub user_did: Seq<char>,
    pub query_price: u64,
    pub record: CreditRecordView,
}

impl View for TokenOperation {
    type V = TokenOperationView;

    open spec fn view(&self) -> TokenOperationView {
        TokenOperationView {
            from_id: self.from_id@,
            to_id: self.to_id@,
            user_did: self.user_did@,
            query_price: self.query_price,
            record: self.record@,
        }
    }
}

/// The settlement that `reader` owes the owner of `record` at `price`.
pub open spec fn settlement_for(
    reader: Seq<u8>,
    record: CreditRecordView,
    price: u64,
) -> TokenOperationView {
    TokenOperationView {
        from_id: reader,
        to_id: record.institution_id,
        user_did: record.user_did,
        query_price: price,
        record,
    }
}

/// The views of a list of settlements, in order.
pub open spec fn settlement_views(ops: Seq<TokenOperation>) -> Seq<TokenOperationView> {
    ops.map_values(|op: TokenOperation| op@)
}

/// The views of a list of records, in order.
pub open spec fn record_views(records: Seq<CreditRecord>) -> Seq<CreditRecordView> {
    records.map_values(|r: CreditRecord| r@)
}

} // verus!
