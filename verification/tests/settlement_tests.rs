use decent_credit::models::account::AccountId;
use decent_credit::models::institution::{RegisterRequest, UpdateServiceSettingsRequest};
use decent_credit::models::record::{
    CreditRecord, NotificationContent, RecordContent, RecordStatus, RecordType, TokenOperation,
};
use decent_credit::services::admin_institution_service::AdminService;
use decent_credit::services::dashboard_service::DashboardService;
use decent_credit::services::record_service::RecordService;
use decent_credit::services::settlement::{SettlementAction, SettlementEvent, SettlementStage};
use decent_credit::services::token_service::TokenService;
use decent_credit::utils::error::Error;

const DAY: u64 = 86_400_000_000_000;

fn who(tag: u8) -> AccountId {
    AccountId::new(vec![tag])
}

fn registry_with(price: u64, settings: bool) -> AdminService {
    let mut registry = AdminService::new();
    for (tag, name) in [(1u8, "owner"), (2u8, "reader")] {
        registry
            .register_with_id(
                RegisterRequest {
                    name: name.to_string(),
                    full_name: name.to_string(),
                    password: None,
                    principal: String::new(),
                },
                Some(who(tag)),
                &who(99),
                5,
            )
            .unwrap();
    }
    if settings {
        registry
            .update_service_settings(
                &who(1),
                UpdateServiceSettingsRequest {
                    data_service_enabled: true,
                    query_price: price,
                    reward_share_ratio: 55,
                },
            )
            .unwrap();
    }
    registry
}

fn operation(price: u64) -> TokenOperation {
    TokenOperation {
        from_id: who(2),
        to_id: who(1),
        user_did: "did:subject".to_string(),
        query_price: price,
        record: CreditRecord {
            id: "REC-1-1".to_string(),
            institution_id: who(1),
            institution_name: "owner".to_string(),
            institution_full_name: "owner".to_string(),
            record_type: RecordType::NotificationRecord,
            user_did: "did:subject".to_string(),
            event_date: String::new(),
            content: RecordContent::Notification(NotificationContent {
                amount: 1,
                days: 1,
                period_amount: 1,
            }),
            encrypted_content: Vec::new(),
            proof: Vec::new(),
            canister_id: String::new(),
            timestamp: 1,
            status: RecordStatus::Pending,
            reward_amount: None,
            query_price: price,
        },
    }
}

#[test]
fn reward_is_ten_for_price_hundred_at_ten_percent() {
    assert_eq!(TokenService::calculate_reward_amount(100, 10).unwrap(), 10);
}

#[test]
fn reward_rounds_down() {
    assert_eq!(TokenService::calculate_reward_amount(99, 10).unwrap(), 9);
    assert_eq!(TokenService::calculate_reward_amount(9, 10).unwrap(), 0);
    assert_eq!(TokenService::calculate_reward_amount(1, 99).unwrap(), 0);
    assert_eq!(TokenService::calculate_reward_amount(7, 50).unwrap(), 3);
    assert_eq!(TokenService::calculate_reward_amount(100, 0).unwrap(), 0);
    assert_eq!(TokenService::calculate_reward_amount(0, 100).unwrap(), 0);
    assert_eq!(TokenService::calculate_reward_amount(12345, 100).unwrap(), 12345);
}

#[test]
fn reward_of_the_largest_price_does_not_overflow() {
    assert_eq!(
        TokenService::calculate_reward_amount(u64::MAX, 100).unwrap(),
        u64::MAX
    );
    assert_eq!(
        TokenService::calculate_reward_amount(u64::MAX, 10).unwrap(),
        u64::MAX / 10
    );
}

#[test]
fn share_above_one_hundred_percent_is_refused() {
    match TokenService::calculate_reward_amount(100, 101) {
        Err(Error::InvalidData(msg)) => assert_eq!(msg, "Invalid reward ratio"),
        other => panic!("unexpected: {:?}", other),
    }
}

#[test]
fn fee_is_the_full_price_to_the_owner() {
    let mut tokens = TokenService::new(who(50), 1);
    let mut dashboard = DashboardService::new();
    let args = tokens
        .prepare_query_fee(&mut dashboard, &who(2), &who(1), "did:s".to_string(), 100, 77)
        .unwrap();
    assert_eq!(args.to, who(1));
    assert_eq!(args.amount, 100);
    assert_eq!(args.memo, b"Query credit record for user did:s".to_vec());
    assert_eq!(args.from_subaccount, None);
    assert_eq!(args.to_subaccount, None);
    assert_eq!(args.created_at_time, Some(77));
    let stats = tokens.get_daily_stats(&who(2)).unwrap();
    assert_eq!(stats.consumption, 100);
    assert_eq!(stats.rewards, 0);
    assert_eq!(stats.last_update, 77);
    assert!(tokens.get_daily_stats(&who(1)).is_none());
    assert_eq!(dashboard.stats().token_consumption, 100);
    assert_eq!(dashboard.stats().token_rewards, 0);
}

#[test]
fn reward_transfer_for_a_registered_owner() {
    let registry = registry_with(100, true);
    let mut tokens = TokenService::new(who(50), 1);
    let mut dashboard = DashboardService::new();
    let args = tokens
        .prepare_query_reward(&registry, &mut dashboard, &who(1), "did:s".to_string(), 9)
        .unwrap()
        .unwrap();
    assert_eq!(args.to, who(1));
    assert_eq!(args.amount, 10);
    assert_eq!(args.memo, b"Reward for data query: 10 DCC (10% share)".to_vec());
    assert_eq!(args.created_at_time, Some(9));
    assert_eq!(tokens.get_daily_stats(&who(1)).unwrap().rewards, 10);
    assert_eq!(dashboard.stats().token_rewards, 10);
}

#[test]
fn no_reward_transfer_without_a_share() {
    let registry = registry_with(0, false);
    assert_eq!(registry.get_institution(&who(1)).unwrap().reward_share_ratio, 0);
    let mut tokens = TokenService::new(who(50), 1);
    let mut dashboard = DashboardService::new();
    let prepared = tokens
        .prepare_query_reward(&registry, &mut dashboard, &who(1), "did:s".to_string(), 9)
        .unwrap();
    assert!(prepared.is_none());
    assert!(tokens.get_daily_stats(&who(1)).is_none());
    assert_eq!(dashboard.stats().token_rewards, 0);
}

#[test]
fn no_reward_for_a_price_too_small() {
    let registry = registry_with(9, true);
    let mut tokens = TokenService::new(who(50), 1);
    let mut dashboard = DashboardService::new();
    let prepared = tokens
        .prepare_query_reward(&registry, &mut dashboard, &who(1), "did:s".to_string(), 9)
        .unwrap();
    assert!(prepared.is_none());
}

#[test]
fn reward_for_an_unknown_institution_fails() {
    let registry = registry_with(100, true);
    let mut tokens = TokenService::new(who(50), 1);
    let mut dashboard = DashboardService::new();
    let id = AccountId::new(vec![4]);
    match tokens.prepare_query_reward(&registry, &mut dashboard, &id, "did:s".to_string(), 9) {
        Err(Error::ResourceNotFound(msg)) => assert_eq!(
            msg,
            format!(
                "Institution not found: {}",
                candid::Principal::from_slice(&[4]).to_text()
            )
        ),
        other => panic!("unexpected: {:?}", other),
    }
}

#[test]
fn transfer_is_prepared_only_for_a_sufficient_balance() {
    let mut tokens = TokenService::new(who(50), 1);
    let mut dashboard = DashboardService::new();
    let short = tokens
        .check_and_prepare_transfer(
            &mut dashboard,
            Ok(99),
            &who(2),
            &who(1),
            100,
            "did:s".to_string(),
            3,
        )
        .unwrap();
    assert!(short.is_none());
    assert!(tokens.get_daily_stats(&who(2)).is_none());
    let exact = tokens
        .check_and_prepare_transfer(
            &mut dashboard,
            Ok(100),
            &who(2),
            &who(1),
            100,
            "did:s".to_string(),
            3,
        )
        .unwrap()
        .unwrap();
    assert_eq!(exact.amount, 100);
    let failed = tokens.check_and_prepare_transfer(
        &mut dashboard,
        Err("ledger down".to_string()),
        &who(2),
        &who(1),
        100,
        "did:s".to_string(),
        3,
    );
    match failed {
        Err(Error::NetworkError(msg)) => assert_eq!(msg, "ledger down"),
        other => panic!("unexpected: {:?}", other),
    }
}

#[test]
fn settlement_runs_fee_then_reward() {
    let registry = registry_with(100, true);
    let mut tokens = TokenService::new(who(50), 1);
    let mut dashboard = DashboardService::new();
    let op = operation(100);
    let (stage, action) = RecordService::process_token_operation(
        &mut tokens,
        &registry,
        &mut dashboard,
        &op,
        SettlementStage::Start,
        SettlementEvent::Begin,
        10,
    );
    assert_eq!(stage, SettlementStage::AwaitingBalance);
    match action {
        SettlementAction::QueryBalance(account) => assert_eq!(account, who(2)),
        other => panic!("unexpected: {:?}", other),
    }
    let (stage, action) = RecordService::process_token_operation(
        &mut tokens,
        &registry,
        &mut dashboard,
        &op,
        stage,
        SettlementEvent::BalanceKnown(100),
        11,
    );
    assert_eq!(stage, SettlementStage::AwaitingFee);
    match action {
        SettlementAction::Transfer(args) => {
            assert_eq!(args.to, who(1));
            assert_eq!(args.amount, 100);
            assert_eq!(args.memo, b"Query credit record for user did:subject".to_vec());
        }
        other => panic!("unexpected: {:?}", other),
    }
    let (stage, action) = RecordService::process_token_operation(
        &mut tokens,
        &registry,
        &mut dashboard,
        &op,
        stage,
        SettlementEvent::Transferred,
        12,
    );
    assert_eq!(stage, SettlementStage::AwaitingReward);
    match action {
        SettlementAction::Transfer(args) => {
            assert_eq!(args.to, who(1));
            assert_eq!(args.amount, 10);
        }
        other => panic!("unexpected: {:?}", other),
    }
    let (stage, action) = RecordService::process_token_operation(
        &mut tokens,
        &registry,
        &mut dashboard,
        &op,
        stage,
        SettlementEvent::Transferred,
        13,
    );
    assert_eq!(stage, SettlementStage::Finished);
    assert!(matches!(action, SettlementAction::Complete));
    assert_eq!(tokens.get_daily_stats(&who(2)).unwrap().consumption, 100);
    assert_eq!(tokens.get_daily_stats(&who(1)).unwrap().rewards, 10);
}

#[test]
fn settlement_is_abandoned_on_a_short_balance() {
    let registry = registry_with(100, true);
    let mut tokens = TokenService::new(who(50), 1);
    let mut dashboard = DashboardService::new();
    let op = operation(100);
    let (stage, action) = RecordService::process_token_operation(
        &mut tokens,
        &registry,
        &mut dashboard,
        &op,
        SettlementStage::AwaitingBalance,
        SettlementEvent::BalanceKnown(99),
        11,
    );
    assert_eq!(stage, SettlementStage::Finished);
    assert!(matches!(action, SettlementAction::Abandon(Error::InsufficientBalance)));
    assert!(tokens.get_daily_stats(&who(2)).is_none());
    assert_eq!(dashboard.stats().token_consumption, 0);
}

#[test]
fn settlement_without_reward_completes_after_the_fee() {
    let registry = registry_with(0, false);
    let mut tokens = TokenService::new(who(50), 1);
    let mut dashboard = DashboardService::new();
    let op = operation(0);
    let (stage, action) = RecordService::process_token_operation(
        &mut tokens,
        &registry,
        &mut dashboard,
        &op,
        SettlementStage::AwaitingFee,
        SettlementEvent::Transferred,
        12,
    );
    assert_eq!(stage, SettlementStage::Finished);
    assert!(matches!(action, SettlementAction::Complete));
}

#[test]
fn failed_calls_abandon_the_settlement() {
    let registry = registry_with(100, true);
    let mut tokens = TokenService::new(who(50), 1);
    let mut dashboard = DashboardService::new();
    let op = operation(100);
    for stage in [
        SettlementStage::AwaitingBalance,
        SettlementStage::AwaitingFee,
        SettlementStage::AwaitingReward,
    ] {
        let (next, action) = RecordService::process_token_operation(
            &mut tokens,
            &registry,
            &mut dashboard,
            &op,
            stage,
            SettlementEvent::CallFailed("timeout".to_string()),
            12,
        );
        assert_eq!(next, SettlementStage::Finished);
        match action {
            SettlementAction::Abandon(Error::NetworkError(msg)) => assert_eq!(msg, "timeout"),
            other => panic!("unexpected: {:?}", other),
        }
    }
    let (next, action) = RecordService::process_token_operation(
        &mut tokens,
        &registry,
        &mut dashboard,
        &op,
        SettlementStage::Finished,
        SettlementEvent::Transferred,
        12,
    );
    assert_eq!(next, SettlementStage::Finished);
    assert!(matches!(action, SettlementAction::Abandon(Error::InvalidStatus)));
    let (_, action) = RecordService::process_token_operation(
        &mut tokens,
        &registry,
        &mut dashboard,
        &op,
        SettlementStage::Start,
        SettlementEvent::BalanceKnown(1000),
        12,
    );
    assert!(matches!(action, SettlementAction::Abandon(Error::InvalidStatus)));
    assert!(tokens.get_daily_stats(&who(2)).is_none());
}

#[test]
fn totals_of_earlier_days_are_dropped() {
    let mut tokens = TokenService::new(who(50), 1);
    let mut dashboard = DashboardService::new();
    tokens
        .prepare_query_fee(&mut dashboard, &who(1), &who(9), "s".to_string(), 5, 3 * DAY - 1)
        .unwrap();
    tokens
        .prepare_query_fee(&mut dashboard, &who(2), &who(9), "s".to_string(), 5, 3 * DAY)
        .unwrap();
    tokens
        .prepare_query_fee(&mut dashboard, &who(3), &who(9), "s".to_string(), 5, 3 * DAY + 500)
        .unwrap();
    tokens.clean_expired_stats(3 * DAY + 1000);
    assert!(tokens.get_daily_stats(&who(1)).is_none());
    assert_eq!(tokens.get_daily_stats(&who(2)).unwrap().consumption, 5);
    assert_eq!(tokens.get_daily_stats(&who(3)).unwrap().consumption, 5);
    tokens.clean_expired_stats(4 * DAY);
    assert!(tokens.get_daily_stats(&who(2)).is_none());
    assert!(tokens.get_daily_stats(&who(3)).is_none());
}

#[test]
fn totals_accumulate_and_saturate() {
    let mut tokens = TokenService::new(who(50), 1);
    let mut dashboard = DashboardService::new();
    tokens
        .prepare_query_fee(&mut dashboard, &who(1), &who(9), "s".to_string(), u64::MAX - 1, 5)
        .unwrap();
    tokens
        .prepare_query_fee(&mut dashboard, &who(1), &who(9), "s".to_string(), 7, 6)
        .unwrap();
    let stats = tokens.get_daily_stats(&who(1)).unwrap();
    assert_eq!(stats.consumption, u64::MAX);
    assert_eq!(stats.last_update, 6);
    assert_eq!(dashboard.stats().token_consumption, u64::MAX);
}

#[test]
fn settlement_request_for_a_read() {
    let registry = registry_with(100, true);
    let op = operation(0);
    let due =
        RecordService::reward_query_token(&registry, &who(2), op.record.clone(), "did:q".to_string())
            .unwrap();
    assert_eq!(due.from_id, who(2));
    assert_eq!(due.to_id, who(1));
    assert_eq!(due.query_price, 100);
    assert_eq!(due.user_did, "did:q");
    let mut orphan = op.record;
    orphan.institution_id = who(77);
    assert_eq!(
        RecordService::reward_query_token(&registry, &who(2), orphan, "did:q".to_string())
            .unwrap_err(),
        "机构不存在"
    );
}
