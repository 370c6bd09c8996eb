//! Institutions as the registry keeps them, and the requests that manage
//! them.

use vstd::prelude::*;
use crate::models::account::AccountId;

verus! {

/// The credit score of an institution and when it was last set.
#[derive(Clone, Copy, Debug, PartialEq, Eq, Structural)]
pub struct CreditScore {
    pub score: u64,
    pub last_update: u64,
}

/// Tokens an institution has bought and sold.
#[derive(Clone, Copy, Debug, PartialEq, Eq, Structural)]
pub struct TokenTrading {
    pub bought: u64,
    pub sold: u64,
}

/// Whether an institution takes part in the service.
#[derive(Clone, Copy, Debug, PartialEq, Eq, Structural)]
pub enum InstitutionStatus {
    Active,
    Inactive,
}

/// A registered institution with its settings and counters.
#[derive(Debug)]
pub struct Institution {
    pub id: AccountId,
    pub name: String,
    pub full_name: String,
    pub password_hash: String,
    pub status: InstitutionStatus,
    pub join_time: u64,
    pub last_active: u64,
    pub api_calls: u64,
    pub dcc_consumed: u64,
    pub data_uploads: u64,
    pub credit_score: CreditScore,
    pub token_trading: TokenTrading,
    pub data_service_enabled: bool,
    pub query_price: u64,
    pub reward_share_ratio: u8,
    pub inbound_queries: u64,
    pub outbound_queries: u64,
    pub rewards: u64,
    pub consumption: u64,
    pub balance: u64,
}

/// Mathematical value of an [`Institution`].
pub struct InstitutionView {
    pub id: Seq<u8>,
    pub name: Seq<char>,
    pub full_name: Seq<char>,
    pub password_hash: Seq<char>,
    pub status: InstitutionStatus,
    pub join_time: u64,
    pub last_active: u64,
    pub api_calls: u64,
    pub dcc_consumed: u64,
    pub data_uploads: u64,
    pub credit_score: CreditScore,
    pub token_trading: TokenTrading,
    pub data_service_enabled: bool,
    pub query_price: u64,
    pub reward_share_ratio: u8,
    pub inbound_queries: u64,
    pub outbound_queries: u64,
    pub rewards: u64,
    pub consumption: u64,
    pub balance: u64,
}

impl View for Institution {
    type V = InstitutionView;

    open spec fn view(&self) -> InstitutionView {
        InstitutionView {
            id: self.id@,
            name: self.name@,
            full_name: self.full_name@,
            password_hash: self.password_hash@,
            status: self.status,
            join_time: self.join_time,
            last_active: self.last_active,
            api_calls: self.api_calls,
            dcc_consumed: self.dcc_consumed,
            data_uploads: self.data_uploads,
            credit_score: self.credit_score,
            token_trading: self.token_trading,
            data_service_enabled: self.data_service_enabled,
            query_price: self.query_price,
            reward_share_ratio: self.reward_share_ratio,
            inbound_queries: self.inbound_queries,
            outbound_queries: self.outbound_queries,
            rewards: self.rewards,
            consumption: self.consumption,
            balance: self.balance,
        }
    }
}

impl Clone for Institution {
    fn clone(&self) -> (copy: Self)
        ensures
            copy@ == self@,
    {
        Institution {
            id: self.id.clone(),
            name: self.name.clone(),
            full_name: self.full_name.clone(),
            password_hash: self.password_hash.clone(),
            status: self.status,
            join_time: self.join_time,
            last_active: self.last_active,
            api_calls: self.api_calls,
            dcc_consumed: self.dcc_consumed,
            data_uploads: self.data_uploads,
            credit_score: self.credit_score,
            token_trading: self.token_trading,
            data_service_enabled: self.data_service_enabled,
            query_price: self.query_price,
            reward_share_ratio: self.reward_share_ratio,
            inbound_queries: self.inbound_queries,
            outbound_queries: self.outbound_queries,
            rewards: self.rewards,
            consumption: self.consumption,
            balance: self.balance,
        }
    }
}

/// Credentials offered at login.
#[derive(Debug)]
pub struct LoginRequest {
    pub name: String,
    pub password: String,
}

/// The answer to a login attempt.
#[derive(Debug)]
pub struct LoginResponse {
    pub success: bool,
    pub institution_id: Option<AccountId>,
    pub full_name: String,
    pub message: String,
}

/// A request to register an institution. Without a password the default
/// password is used.
#[derive(Debug)]
pub struct RegisterRequest {
    pub name: String,
    pub full_name: String,
    pub password: Option<String>,
    pub principal: String,
}

/// New data-service settings for an institution.
#[derive(Clone, Copy, Debug, PartialEq, Eq, Structural)]
pub struct UpdateServiceSettingsRequest {
    pub data_service_enabled: bool,
    pub query_price: u64,
    pub reward_share_ratio: u8,
}

} // verus!
