//! The error taxonomy of the record pipeline.

use vstd::prelude::*;
use vstd::string::*;
use crate::utils::text::{decimal_text, u64_to_decimal};

verus! {

/// What can go wrong while a record is submitted, verified, queried or
/// settled.
#[derive(Debug)]
pub enum Error {
    InvalidData(String),
    SerializationFailed,
    EncryptionFailed(String),
    StorageFailed,
    InvalidProof,
    RecordNotFound,
    VerificationFailed(String),
    InvalidStatus,
    NotAuthorized,
    DatabaseError(String),
    NetworkError(String),
    ValidationError(String),
    InsufficientBalance,
    ResourceNotFound(String),
    RateLimitExceeded,
    ServiceUnavailable,
}

/// The kind of an [`Error`], without its message.
#[derive(Clone, Copy, Debug, PartialEq, Eq, Structural)]
pub enum ErrorKind {
    InvalidData,
    SerializationFailed,
    EncryptionFailed,
    StorageFailed,
    InvalidProof,
    RecordNotFound,
    VerificationFailed,
    InvalidStatus,
    NotAuthorized,
    DatabaseError,
    NetworkError,
    ValidationError,
    InsufficientBalance,
    ResourceNotFound,
    RateLimitExceeded,
    ServiceUnavailable,
}

impl Error {
    /// The kind of this error.
    pub open spec fn kind(&self) -> ErrorKind {
        match self {
            Error::InvalidData(_) => ErrorKind::InvalidData,
            Error::SerializationFailed => ErrorKind::SerializationFailed,
            Error::EncryptionFailed(_) => ErrorKind::EncryptionFailed,
            Error::StorageFailed => ErrorKind::StorageFailed,
            Error::InvalidProof => ErrorKind::InvalidProof,
            Error::RecordNotFound => ErrorKind::RecordNotFound,
            Error::VerificationFailed(_) => ErrorKind::VerificationFailed,
            Error::InvalidStatus => ErrorKind::InvalidStatus,
            Error::NotAuthorized => ErrorKind::NotAuthorized,
            Error::DatabaseError(_) => ErrorKind::DatabaseError,
            Error::NetworkError(_) => ErrorKind::NetworkError,
            Error::ValidationError(_) => ErrorKind::ValidationError,
            Error::InsufficientBalance => ErrorKind::InsufficientBalance,
            Error::ResourceNotFound(_) => ErrorKind::ResourceNotFound,
            Error::RateLimitExceeded => ErrorKind::RateLimitExceeded,
            Error::ServiceUnavailable => ErrorKind::ServiceUnavailable,
        }
    }

    /// The text that describes this error: its own message where it carries
    /// one, a fixed phrase otherwise.
    pub open spec fn message(&self) -> Seq<char> {
        match self {
            Error::InvalidData(msg) => msg@,
            Error::SerializationFailed => "序列化失败"@,
            Error::EncryptionFailed(msg) => msg@,
            Error::StorageFailed => "存储操作失败"@,
            Error::InvalidProof => "无效的证明"@,
            Error::RecordNotFound => "未找到记录"@,
            Error::VerificationFailed(msg) => msg@,
            Error::InvalidStatus => "无效的记录状态"@,
            Error::NotAuthorized => "未授权的操作"@,
            Error::DatabaseError(msg) => msg@,
            Error::NetworkError(msg) => msg@,
            Error::ValidationError(msg) => msg@,
            Error::InsufficientBalance => "余额不足"@,
            Error::ResourceNotFound(msg) => msg@,
            Error::RateLimitExceeded => "超出请求限制"@,
            Error::ServiceUnavailable => "服务暂不可用"@,
        }
    }

    /// The numeric code of each kind of error.
    pub open spec fn code(&self) -> u32 {
        match self {
            Error::InvalidData(_) => 1001,
            Error::SerializationFailed => 1002,
            Error::EncryptionFailed(_) => 1003,
            Error::StorageFailed => 1004,
            Error::InvalidProof => 1005,
            Error::RecordNotFound => 1006,
            Error::VerificationFailed(_) => 1007,
            Error::InvalidStatus => 1008,
            Error::NotAuthorized => 1009,
            Error::DatabaseError(_) => 2001,
            Error::NetworkError(_) => 2002,
            Error::ValidationError(_) => 2003,
            Error::InsufficientBalance => 3001,
            Error::ResourceNotFound(_) => 4001,
            Error::RateLimitExceeded => 4002,
            Error::ServiceUnavailable => 5001,
        }
    }

    /// The describing text of this error.
    pub fn as_str(&self) -> (text: &str)
        ensures
            text@ == self.message(),
    {
        match self {
            Error::InvalidData(msg) => msg.as_str(),
            Error::SerializationFailed => "序列化失败",
            Error::EncryptionFailed(msg) => msg.as_str(),
            Error::StorageFailed => "存储操作失败",
            Error::InvalidProof => "无效的证明",
            Error::RecordNotFound => "未找到记录",
            Error::VerificationFailed(msg) => msg.as_str(),
            Error::InvalidStatus => "无效的记录状态",
            Error::NotAuthorized => "未授权的操作",
            Error::DatabaseError(msg) => msg.as_str(),
            Error::NetworkError(msg) => msg.as_str(),
            Error::ValidationError(msg) => msg.as_str(),
            Error::InsufficientBalance => "余额不足",
            Error::ResourceNotFound(msg) => msg.as_str(),
            Error::RateLimitExceeded => "超出请求限制",
            Error::ServiceUnavailable => "服务暂不可用",
        }
    }

    /// The numeric code of this error.
    pub fn to_error_code(&self) -> (code: u32)
        ensures
            code == self.code(),
    {
        match self {
            Error::InvalidData(_) => 1001,
            Error::SerializationFailed => 1002,
            Error::EncryptionFailed(_) => 1003,
            Error::StorageFailed => 1004,
            Error::InvalidProof => 1005,
            Error::RecordNotFound => 1006,
            Error::VerificationFailed(_) => 1007,
            Error::InvalidStatus => 1008,
            Error::NotAuthorized => 1009,
            Error::DatabaseError(_) => 2001,
            Error::NetworkError(_) => 2002,
            Error::ValidationError(_) => 2003,
            Error::InsufficientBalance => 3001,
            Error::ResourceNotFound(_) => 4001,
            Error::RateLimitExceeded => 4002,
            Error::ServiceUnavailable => 5001,
        }
    }

    /// Whether trying again may succeed: network faults, an unavailable
    /// service and an exceeded rate limit.
    pub fn is_retryable(&self) -> (retry: bool)
        ensures
            retry == (self.kind() == ErrorKind::NetworkError || self.kind()
                == ErrorKind::ServiceUnavailable || self.kind() == ErrorKind::RateLimitExceeded),
    {
        match self {
            Error::NetworkError(_) => true,
            Error::ServiceUnavailable => true,
            Error::RateLimitExceeded => true,
            _ => false,
        }
    }

    /// Whether the caller is at fault: every code below 5000.
    pub fn is_client_error(&self) -> (client: bool)
        ensures
            client == (self.code() < 5000),
            client == (self.kind() != ErrorKind::ServiceUnavailable),
    {
        self.to_error_code() < 5000
    }

    /// Whether the service is at fault: every code from 5000 on.
    pub fn is_server_error(&self) -> (server: bool)
        ensures
            server == (self.code() >= 5000),
            server == (self.kind() == ErrorKind::ServiceUnavailable),
    {
        self.to_error_code() >= 5000
    }

    /// The text `[code] message`.
    pub open spec fn display_text(&self) -> Seq<char> {
        seq!['['] + decimal_text(self.code() as nat) + seq![']', ' '] + self.message()
    }

    /// Renders the error as `[code] message`.
    pub fn to_string(&self) -> (text: String)
        ensures
            text@ == self.display_text(),
    {
        proof {
            reveal_strlit("[");
            reveal_strlit("] ");
        }
        let mut text = String::from_str("[");
        let code = u64_to_decimal(self.to_error_code() as u64);
        text.append(code.as_str());
        text.append("] ");
        text.append(self.as_str());
        assert(text@ =~= self.display_text());
        text
    }
}

} // verus!
