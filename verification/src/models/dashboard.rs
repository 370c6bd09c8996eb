//! The figures shown on the administrator's and the institutions'
//! dashboards.

use vstd::prelude::*;
use vstd::string::*;
use crate::models::institution::InstitutionStatus;

verus! {

/// Counts over all institutions.
#[derive(Clone, Copy, Debug, PartialEq, Eq, Structural)]
pub struct AdminStatistics {
    pub total_institutions: u64,
    pub active_institutions: u64,
    pub total_dcc_consumed: u64,
}

/// Confirmed records by type.
#[derive(Clone, Copy, Debug, PartialEq, Eq, Structural)]
pub struct DataDistribution {
    pub loan_records: u64,
    pub repayment_records: u64,
    pub notification_records: u64,
}

/// Institutions by credit level.
#[derive(Clone, Copy, Debug, PartialEq, Eq, Structural)]
pub struct LevelDistribution {
    pub aaa_count: u64,
    pub aa_count: u64,
    pub a_count: u64,
    pub bbb_count: u64,
    pub bb_count: u64,
    pub other_count: u64,
}

impl Default for LevelDistribution {
    fn default() -> (levels: Self)
        ensures
            levels == (LevelDistribution {
                aaa_count: 0,
                aa_count: 0,
                a_count: 0,
                bbb_count: 0,
                bb_count: 0,
                other_count: 0,
            }),
    {
        LevelDistribution {
            aaa_count: 0,
            aa_count: 0,
            a_count: 0,
            bbb_count: 0,
            bb_count: 0,
            other_count: 0,
        }
    }
}

/// Who an institution is.
#[derive(Debug)]
pub struct BasicInfo {
    pub name: String,
    pub id: String,
    pub status: InstitutionStatus,
    pub join_time: u64,
    pub credit_level: String,
    pub credit_score: u64,
}

/// What an institution has submitted.
#[derive(Clone, Copy, Debug, PartialEq, Eq, Structural)]
pub struct SubmissionStats {
    pub today_submissions: u64,
    pub monthly_submissions: u64,
    pub total_submissions: u64,
    pub submission_distribution: DataDistribution,
}

/// The share of its call quota that an institution has used.
#[derive(Clone, Copy, Debug, PartialEq, Eq, Structural)]
pub struct ApiQuota {
    pub used: u64,
    pub total: u64,
}

/// How an institution has used the service.
#[derive(Clone, Copy, Debug, PartialEq, Eq, Structural)]
pub struct InstitutionUsageStats {
    pub query_others: u64,
    pub queried_by_others: u64,
    pub today_query_others: u64,
    pub today_queried_by_others: u64,
    pub monthly_queries: u64,
    pub total_queries: u64,
    pub api_quota: ApiQuota,
}

/// The token position of an institution.
#[derive(Clone, Copy, Debug, PartialEq, Eq, Structural)]
pub struct TokenInfo {
    pub balance: u64,
    pub total_spent: u64,
    pub today_spent: u64,
    pub total_reward: u64,
    pub today_reward: u64,
    pub monthly_earned: u64,
    pub monthly_spent: u64,
}

/// The credit standing of an institution.
#[derive(Debug)]
pub struct CreditInfo {
    pub credit_score: u64,
    pub credit_level: String,
    pub data_quality_score: u64,
}

/// The state of the service itself.
#[derive(Debug)]
pub struct SystemStatus {
    pub api_health: bool,
    pub has_announcement: bool,
    pub last_update_time: u64,
    pub system_version: String,
}

/// Everything an institution sees on its dashboard.
#[derive(Debug)]
pub struct InstitutionDashboardData {
    pub basic_info: BasicInfo,
    pub submission_stats: SubmissionStats,
    pub usage_stats: InstitutionUsageStats,
    pub token_info: TokenInfo,
    pub credit_info: CreditInfo,
    pub system_status: SystemStatus,
}

/// The running totals of one day.
#[derive(Clone, Copy, Debug, PartialEq, Eq, Structural)]
pub struct DailyStats {
    pub new_institutions: u64,
    pub api_calls: u64,
    pub data_uploads: u64,
    pub token_rewards: u64,
    pub token_consumption: u64,
    pub outbound_queries: u64,
    pub inbound_queries: u64,
    pub last_update: u64,
}

/// Why a dashboard could not be shown.
#[derive(Debug)]
pub enum DashboardError {
    NotFound,
    Unauthorized,
    InvalidData,
    SystemError(String),
}

impl DashboardError {
    /// The text that describes the error.
    pub open spec fn message(&self) -> Seq<char> {
        match self {
            DashboardError::NotFound => "数据不存在"@,
            DashboardError::Unauthorized => "未授权访问"@,
            DashboardError::InvalidData => "数据无效"@,
            DashboardError::SystemError(msg) => "系统错误: "@ + msg@,
        }
    }

    /// Renders the error as text.
    pub fn to_string(&self) -> (text: String)
        ensures
            text@ == self.message(),
    {
        match self {
            DashboardError::NotFound => String::from_str("数据不存在"),
            DashboardError::Unauthorized => String::from_str("未授权访问"),
            DashboardError::InvalidData => String::from_str("数据无效"),
            DashboardError::SystemError(msg) => {
                let mut text = String::from_str("系统错误: ");
                text.append(msg.as_str());
                text
            },
        }
    }
}

} // verus!
