//! The settlement of a cross-institution read, one step at a time.
//!
//! A settlement talks to the ledger three times at most: it reads the
//! payer's balance, transfers the fee to the data owner, and transfers the
//! owner's reward. The ledger calls are made by the caller; what to do
//! before the first call and after each answer is decided here.

use vstd::prelude::*;
use vstd::string::*;
use crate::models::account::AccountId;
use crate::models::record::TokenOperation;
use crate::services::admin_institution_service::AdminService;
use crate::services::dashboard_service::DashboardService;
use crate::services::record_service::RecordService;
use crate::services::token_service::{
    fee_memo,
    is_transfer,
    reward_due,
    reward_memo,
    stats_after,
    totals_after,
    TokenService,
    TokenTransferArgs,
};
use crate::utils::error::{Error, ErrorKind};

verus! {

/// What a settlement is waiting for.
#[derive(Clone, Copy, Debug, PartialEq, Eq, Structural)]
pub enum SettlementStage {
    /// Nothing has been asked of the ledger yet.
    Start,
    /// The payer's balance has been asked for.
    AwaitingBalance,
    /// The fee transfer has been handed to the ledger.
    AwaitingFee,
    /// The reward transfer has been handed to the ledger.
    AwaitingReward,
    /// The settlement has completed or has been abandoned.
    Finished,
}

/// What has happened since the last step.
#[derive(Debug)]
pub enum SettlementEvent {
    /// The settlement is to begin.
    Begin,
    /// The ledger has told the payer's balance.
    BalanceKnown(u64),
    /// The ledger has carried out the transfer.
    Transferred,
    /// The call to the ledger has failed, with the ledger's message.
    CallFailed(String),
}

/// What the caller is to do next.
#[derive(Debug)]
pub enum SettlementAction {
    /// Ask the ledger for the balance of this account.
    QueryBalance(AccountId),
    /// Hand this transfer to the ledger.
    Transfer(TokenTransferArgs),
    /// Nothing: the settlement is complete.
    Complete,
    /// Nothing: the settlement is abandoned for this reason. It is not tried
    /// again.
    Abandon(Error),
}

/// Neither the daily totals nor the dashboard have changed.
pub open spec fn totals_unchanged(
    before: TokenService,
    after: TokenService,
    dashboard_before: DashboardService,
    dashboard_after: DashboardService,
) -> bool {
    &&& after.daily_stats() == before.daily_stats()
    &&& dashboard_after.daily_stats() == dashboard_before.daily_stats()
}

/// What a step comes to, for every stage and event.
pub open spec fn step_outcome(
    before: TokenService,
    after: TokenService,
    registry: AdminService,
    dashboard_before: DashboardService,
    dashboard_after: DashboardService,
    op: TokenOperation,
    stage: SettlementStage,
    event: SettlementEvent,
    now: u64,
    next: SettlementStage,
    action: SettlementAction,
) -> bool {
    match (stage, event) {
        (SettlementStage::Start, SettlementEvent::Begin) => {
            &&& next == SettlementStage::AwaitingBalance
            &&& action is QueryBalance
            &&& action->QueryBalance_0@ == op.from_id@
            &&& totals_unchanged(before, after, dashboard_before, dashboard_after)
        },
        (SettlementStage::AwaitingBalance, SettlementEvent::BalanceKnown(balance)) => {
            if balance < op.query_price {
                &&& next == SettlementStage::Finished
                &&& action is Abandon
                &&& action->Abandon_0.kind() == ErrorKind::InsufficientBalance
                &&& totals_unchanged(before, after, dashboard_before, dashboard_after)
            } else {
                &&& next == SettlementStage::AwaitingFee
                &&& action is Transfer
                &&& is_transfer(
                    action->Transfer_0,
                    op.to_id@,
                    op.query_price,
                    fee_memo(op.user_did@),
                    now,
                )
                &&& after.daily_stats() == before.daily_stats().insert(
                    op.from_id@,
                    stats_after(before.daily_stats(), op.from_id@, 0, op.query_price, now),
                )
                &&& dashboard_after.daily_stats() == totals_after(
                    dashboard_before.daily_stats(),
                    0,
                    op.query_price,
                )
            }
        },
        (SettlementStage::AwaitingFee, SettlementEvent::Transferred) => {
            match reward_due(registry, op.to_id@) {
                Some(amount) => {
                    &&& next == SettlementStage::AwaitingReward
                    &&& action is Transfer
                    &&& is_transfer(
                        action->Transfer_0,
                        op.to_id@,
                        amount,
                        reward_memo(
                            amount,
                            registry.institutions()[op.to_id@].reward_share_ratio as u32,
                        ),
                        now,
                    )
                    &&& after.daily_stats() == before.daily_stats().insert(
                        op.to_id@,
                        stats_after(before.daily_stats(), op.to_id@, amount, 0, now),
                    )
                    &&& dashboard_after.daily_stats() == totals_after(
                        dashboard_before.daily_stats(),
                        amount,
                        0,
                    )
                },
                None => {
                    &&& next == SettlementStage::Finished
                    &&& totals_unchanged(before, after, dashboard_before, dashboard_after)
                    &&& if !registry.institutions().contains_key(op.to_id@) {
                        action is Abandon && action->Abandon_0.kind() == ErrorKind::ResourceNotFound
                    } else if registry.institutions()[op.to_id@].reward_share_ratio > 100 {
                        action is Abandon && action->Abandon_0.kind() == ErrorKind::InvalidData
                    } else {
                        action is Complete
                    }
                },
            }
        },
        (SettlementStage::AwaitingReward, SettlementEvent::Transferred) => {
            &&& next == SettlementStage::Finished
            &&& action is Complete
            &&& totals_unchanged(before, after, dashboard_before, dashboard_after)
        },
        (SettlementStage::AwaitingBalance, SettlementEvent::CallFailed(message))
        | (SettlementStage::AwaitingFee, SettlementEvent::CallFailed(message))
        | (SettlementStage::AwaitingReward, SettlementEvent::CallFailed(message)) => {
            &&& next == SettlementStage::Finished
            &&& action is Abandon
            &&& action->Abandon_0 is NetworkError
            &&& action->Abandon_0->NetworkError_0@ == message@
            &&& totals_unchanged(before, after, dashboard_before, dashboard_after)
        },
        _ => {
            &&& next == SettlementStage::Finished
            &&& action is Abandon
            &&& action->Abandon_0.kind() == ErrorKind::InvalidStatus
            &&& totals_unchanged(before, after, dashboard_before, dashboard_after)
        },
    }
}

impl RecordService {
    /// Takes the settlement of `op` one step further.
    ///
    /// At the start the payer's balance is asked for. A balance below the
    /// query price abandons the settlement; otherwise the fee transfer to the
    /// data owner is prepared and handed out. Once the fee has been
    /// transferred the owner's reward is prepared: where one is due its
    /// transfer is handed out, else the settlement is complete. After the
    /// reward transfer the settlement is complete. A failed call abandons the
    /// settlement with the ledger's message, and so does an event that the
    /// stage does not wait for.
    pub fn process_token_operation(
        tokens: &mut TokenService,
        registry: &AdminService,
        dashboard: &mut DashboardService,
        op: &TokenOperation,
        stage: SettlementStage,
        event: SettlementEvent,
        now: u64,
    ) -> (out: (SettlementStage, SettlementAction))
        requires
            old(tokens).wf(),
            registry.wf(),
        ensures
            final(tokens).wf(),
            final(tokens).last_sync() == old(tokens).last_sync(),
            final(tokens).version() == old(tokens).version(),
            final(tokens).ledger() == old(tokens).ledger(),
            final(dashboard).api_quota_limit() == old(dashboard).api_quota_limit(),
            step_outcome(
                *old(tokens),
                *final(tokens),
                *registry,
                *old(dashboard),
                *final(dashboard),
                *op,
                stage,
                event,
                now,
                out.0,
                out.1,
            ),
    {
        match (stage, event) {
            (SettlementStage::Start, SettlementEvent::Begin) => {
                (SettlementStage::AwaitingBalance, SettlementAction::QueryBalance(op.from_id.clone()))
            },
            (SettlementStage::AwaitingBalance, SettlementEvent::BalanceKnown(balance)) => {
                if balance < op.query_price {
                    (
                        SettlementStage::Finished,
                        SettlementAction::Abandon(Error::InsufficientBalance),
                    )
                } else {
                    match tokens.prepare_query_fee(
                        dashboard,
                        &op.from_id,
                        &op.to_id,
                        op.user_did.clone(),
                        op.query_price,
                        now,
                    ) {
                        Ok(args) => (SettlementStage::AwaitingFee, SettlementAction::Transfer(args)),
                        Err(e) => (SettlementStage::Finished, SettlementAction::Abandon(e)),
                    }
                }
            },
            (SettlementStage::AwaitingFee, SettlementEvent::Transferred) => {
                match tokens.prepare_query_reward(
                    registry,
                    dashboard,
                    &op.to_id,
                    op.user_did.clone(),
                    now,
                ) {
                    Ok(Some(args)) => (
                        SettlementStage::AwaitingReward,
                        SettlementAction::Transfer(args),
                    ),
                    Ok(None) => (SettlementStage::Finished, SettlementAction::Complete),
                    Err(e) => (SettlementStage::Finished, SettlementAction::Abandon(e)),
                }
            },
            (SettlementStage::AwaitingReward, SettlementEvent::Transferred) => {
                (SettlementStage::Finished, SettlementAction::Complete)
            },
            (SettlementStage::AwaitingBalance, SettlementEvent::CallFailed(message)) => {
                (
                    SettlementStage::Finished,
                    SettlementAction::Abandon(Error::NetworkError(message)),
                )
            },
            (SettlementStage::AwaitingFee, SettlementEvent::CallFailed(message)) => {
                (
                    SettlementStage::Finished,
                    SettlementAction::Abandon(Error::NetworkError(message)),
                )
            },
            (SettlementStage::AwaitingReward, SettlementEvent::CallFailed(message)) => {
                (
                    SettlementStage::Finished,
                    SettlementAction::Abandon(Error::NetworkError(message)),
                )
            },
            _ => (SettlementStage::Finished, SettlementAction::Abandon(Error::InvalidStatus)),
        }
    }
}

} // verus!
