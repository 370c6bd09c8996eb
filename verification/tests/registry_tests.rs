use decent_credit::models::account::AccountId;
use decent_credit::models::institution::{
    InstitutionStatus, LoginRequest, RegisterRequest, UpdateServiceSettingsRequest,
};
use decent_credit::services::admin_institution_service::AdminService;
use sha2::{Digest, Sha256};

fn acct(tag: u8) -> AccountId {
    AccountId::new(vec![tag, tag])
}

fn form(name: &str, password: Option<&str>, principal: &str) -> RegisterRequest {
    RegisterRequest {
        name: name.to_string(),
        full_name: format!("{} full", name),
        password: password.map(|p| p.to_string()),
        principal: principal.to_string(),
    }
}

fn hash(password: &str) -> String {
    hex::encode(Sha256::digest(password.as_bytes()))
}

#[test]
fn registration_creates_an_inactive_institution() {
    let mut registry = AdminService::new();
    let id = registry
        .register_with_id(form("alpha", None, ""), Some(acct(1)), &acct(9), 1000)
        .unwrap();
    assert_eq!(id, acct(1));
    let inst = registry.get_institution(&acct(1)).unwrap();
    assert_eq!(inst.id, acct(1));
    assert_eq!(inst.name, "alpha");
    assert_eq!(inst.full_name, "alpha full");
    assert_eq!(inst.password_hash, hash("123"));
    assert_eq!(inst.status, InstitutionStatus::Inactive);
    assert_eq!(inst.join_time, 1000);
    assert_eq!(inst.last_active, 1000);
    assert_eq!(inst.credit_score.score, 80);
    assert_eq!(inst.credit_score.last_update, 1000);
    assert!(inst.data_service_enabled);
    assert_eq!(inst.query_price, 0);
    assert_eq!(inst.reward_share_ratio, 0);
    assert_eq!(inst.api_calls + inst.data_uploads + inst.balance, 0);
    assert!(registry.get_institution(&acct(2)).is_none());
}

#[test]
fn registration_by_principal_text() {
    let mut registry = AdminService::new();
    let id = registry
        .register_institution(form("anon", Some("secret"), "2vxsx-fae"), &acct(9), 5)
        .unwrap();
    assert_eq!(id, AccountId::new(vec![4]));
    assert_eq!(
        registry.get_institution(&id).unwrap().password_hash,
        hash("secret")
    );
    let canister = registry
        .register_institution(form("ledger", None, "ryjl3-tyaaa-aaaaa-aaaba-cai"), &acct(9), 5)
        .unwrap();
    assert_eq!(
        canister.bytes,
        candid::Principal::from_text("ryjl3-tyaaa-aaaaa-aaaba-cai")
            .unwrap()
            .as_slice()
            .to_vec()
    );
    let bad = registry.register_institution(form("bad", None, "not a principal"), &acct(9), 5);
    assert_eq!(bad.unwrap_err(), "Invalid Principal ID format");
    assert_eq!(registry.get_all_institutions().len(), 2);
}

#[test]
fn names_are_unique() {
    let mut registry = AdminService::new();
    registry
        .register_with_id(form("alpha", None, ""), Some(acct(1)), &acct(9), 1)
        .unwrap();
    let again = registry.register_with_id(form("alpha", None, ""), Some(acct(2)), &acct(9), 2);
    assert_eq!(again.unwrap_err(), "机构名已存在");
    assert!(registry.get_institution(&acct(2)).is_none());
    let without = registry.register_with_id(form("beta", None, ""), None, &acct(9), 2);
    assert_eq!(without.unwrap_err(), "Invalid Principal ID format");
}

#[test]
fn institutions_are_listed_in_order_of_registration() {
    let mut registry = AdminService::new();
    for (tag, name) in [(3u8, "c"), (1u8, "a"), (2u8, "b")] {
        registry
            .register_with_id(form(name, None, ""), Some(acct(tag)), &acct(9), 1)
            .unwrap();
    }
    let names: Vec<String> = registry
        .get_all_institutions()
        .into_iter()
        .map(|i| i.name)
        .collect();
    assert_eq!(names, vec!["c", "a", "b"]);
}

#[test]
fn settings_update_fixes_the_share_at_ten_percent() {
    let mut registry = AdminService::new();
    registry
        .register_with_id(form("alpha", None, ""), Some(acct(1)), &acct(9), 1)
        .unwrap();
    registry
        .update_service_settings(
            &acct(1),
            UpdateServiceSettingsRequest {
                data_service_enabled: false,
                query_price: 250,
                reward_share_ratio: 40,
            },
        )
        .unwrap();
    let inst = registry.get_institution(&acct(1)).unwrap();
    assert!(!inst.data_service_enabled);
    assert_eq!(inst.query_price, 250);
    assert_eq!(inst.reward_share_ratio, 10);
    let missing = registry.update_service_settings(
        &acct(2),
        UpdateServiceSettingsRequest {
            data_service_enabled: true,
            query_price: 1,
            reward_share_ratio: 1,
        },
    );
    assert_eq!(missing.unwrap_err(), "机构不存在");
}

#[test]
fn status_and_score_updates() {
    let mut registry = AdminService::new();
    registry
        .register_with_id(form("alpha", None, ""), Some(acct(1)), &acct(9), 1)
        .unwrap();
    registry.update_status(&acct(1), true, 50).unwrap();
    let inst = registry.get_institution(&acct(1)).unwrap();
    assert_eq!(inst.status, InstitutionStatus::Active);
    assert_eq!(inst.last_active, 50);
    registry.update_status(&acct(1), false, 60).unwrap();
    assert_eq!(
        registry.get_institution(&acct(1)).unwrap().status,
        InstitutionStatus::Inactive
    );
    assert_eq!(registry.update_status(&acct(2), true, 1).unwrap_err(), "机构不存在");

    registry.update_credit_score(&acct(1), 100, 70).unwrap();
    let inst = registry.get_institution(&acct(1)).unwrap();
    assert_eq!(inst.credit_score.score, 100);
    assert_eq!(inst.credit_score.last_update, 70);
    assert_eq!(
        registry.update_credit_score(&acct(1), 101, 80).unwrap_err(),
        "信用分数不能超过100"
    );
    assert_eq!(registry.get_institution(&acct(1)).unwrap().credit_score.score, 100);
    assert_eq!(
        registry.update_credit_score(&acct(2), 101, 80).unwrap_err(),
        "机构不存在"
    );
}

#[test]
fn counters_move_and_saturate() {
    let mut registry = AdminService::new();
    registry
        .register_with_id(form("alpha", None, ""), Some(acct(1)), &acct(9), 1)
        .unwrap();
    registry.institution_record_data_upload(&acct(1), 5, 10);
    registry.institution_record_data_upload(&acct(1), u64::MAX, 11);
    registry.increment_outbound_queries(&acct(1));
    registry.increment_inbound_queries(&acct(1));
    registry.increment_inbound_queries(&acct(1));
    registry.increment_inbound_queries(&acct(7));
    let inst = registry.get_institution(&acct(1)).unwrap();
    assert_eq!(inst.data_uploads, u64::MAX);
    assert_eq!(inst.last_active, 11);
    assert_eq!(inst.outbound_queries, 1);
    assert_eq!(inst.inbound_queries, 2);
}

#[test]
fn token_bookkeeping() {
    let mut registry = AdminService::new();
    registry
        .register_with_id(form("alpha", None, ""), Some(acct(1)), &acct(9), 1)
        .unwrap();
    registry.record_token_trading(&acct(1), true, 100, 2);
    registry.record_token_trading(&acct(1), false, 30, 3);
    registry.record_token_reward(&acct(1), 5, 4);
    registry.record_token_consumption(&acct(1), 500, 5);
    let inst = registry.get_institution(&acct(1)).unwrap();
    assert_eq!(inst.token_trading.bought, 100);
    assert_eq!(inst.token_trading.sold, 30);
    assert_eq!(inst.rewards, 5);
    assert_eq!(inst.consumption, 500);
    assert_eq!(inst.balance, 0);
    assert_eq!(inst.last_active, 5);
    registry.log_event(&acct(1), 9);
    assert_eq!(registry.get_institution(&acct(1)).unwrap().last_active, 9);
}

#[test]
fn login_and_passwords() {
    let mut registry = AdminService::new();
    registry
        .register_with_id(form("alpha", Some("pw"), ""), Some(acct(1)), &acct(9), 1)
        .unwrap();
    let ok = registry.institution_login(
        LoginRequest { name: "alpha".to_string(), password: "pw".to_string() },
        20,
    );
    assert!(ok.success);
    assert_eq!(ok.institution_id, Some(acct(1)));
    assert_eq!(ok.full_name, "alpha full");
    assert_eq!(ok.message, "登录成功");
    assert_eq!(registry.get_institution(&acct(1)).unwrap().last_active, 20);

    let wrong = registry.institution_login(
        LoginRequest { name: "alpha".to_string(), password: "nope".to_string() },
        30,
    );
    assert!(!wrong.success);
    assert_eq!(wrong.institution_id, None);
    assert_eq!(wrong.message, "密码错误");
    assert_eq!(registry.get_institution(&acct(1)).unwrap().last_active, 20);

    let unknown = registry.institution_login(
        LoginRequest { name: "beta".to_string(), password: "pw".to_string() },
        30,
    );
    assert_eq!(unknown.message, "机构不存在");

    assert_eq!(
        registry
            .change_password(&acct(1), "bad".to_string(), "new".to_string())
            .unwrap_err(),
        "原密码错误"
    );
    registry
        .change_password(&acct(1), "pw".to_string(), "new".to_string())
        .unwrap();
    assert_eq!(registry.get_institution(&acct(1)).unwrap().password_hash, hash("new"));
    assert_eq!(registry.reset_password(&acct(1)).unwrap(), "123");
    assert_eq!(registry.get_institution(&acct(1)).unwrap().password_hash, hash("123"));
    assert_eq!(registry.reset_password(&acct(2)).unwrap_err(), "机构不存在");
    assert_eq!(
        registry
            .change_password(&acct(2), "a".to_string(), "b".to_string())
            .unwrap_err(),
        "机构不存在"
    );
}

#[test]
fn deleting_frees_the_name() {
    let mut registry = AdminService::new();
    registry
        .register_with_id(form("alpha", None, ""), Some(acct(1)), &acct(9), 1)
        .unwrap();
    assert!(registry.delete_institution(&acct(1)));
    assert!(!registry.delete_institution(&acct(1)));
    assert!(registry.get_institution(&acct(1)).is_none());
    registry
        .register_with_id(form("alpha", None, ""), Some(acct(2)), &acct(9), 1)
        .unwrap();
    assert_eq!(registry.get_all_institutions().len(), 1);
}
