use decent_credit::models::account::AccountId;
use decent_credit::models::institution::{Institution, InstitutionStatus, RegisterRequest};
use decent_credit::models::institution::{CreditScore, TokenTrading};
use decent_credit::models::record::{
    CreateCreditRecordRequest, LoanContent, NotificationContent, RecordContent,
    RecordSubmissionRequest, RecordType, RepaymentContent,
};
use decent_credit::services::admin_institution_service::AdminService;
use decent_credit::services::credit_service::CreditService;
use decent_credit::services::dashboard_service::DashboardService;
use decent_credit::services::record_service::RecordService;
use decent_credit::services::storage_service::StorageService;
use decent_credit::services::token_service::TokenService;

fn party(tag: u8) -> AccountId {
    AccountId::new(vec![tag, 0, tag])
}

fn join_registry(registry: &mut AdminService, tag: u8, name: &str, caller: u8) {
    registry
        .register_with_id(
            RegisterRequest {
                name: name.to_string(),
                full_name: format!("{} Corp", name),
                password: None,
                principal: String::new(),
            },
            Some(party(tag)),
            &party(caller),
            1,
        )
        .unwrap();
}

fn deduction(tag: u8, points: u32) -> CreateCreditRecordRequest {
    CreateCreditRecordRequest {
        institution_id: party(tag),
        deduction_points: points,
        reason: "late data".to_string(),
        data_quality_issue: "missing fields".to_string(),
    }
}

fn institution_with_score(score: u64, status: InstitutionStatus, consumed: u64) -> Institution {
    Institution {
        id: party(1),
        name: "n".to_string(),
        full_name: "f".to_string(),
        password_hash: String::new(),
        status,
        join_time: 0,
        last_active: 0,
        api_calls: 0,
        dcc_consumed: consumed,
        data_uploads: 0,
        credit_score: CreditScore { score, last_update: 0 },
        token_trading: TokenTrading { bought: 0, sold: 0 },
        data_service_enabled: true,
        query_price: 0,
        reward_share_ratio: 0,
        inbound_queries: 0,
        outbound_queries: 0,
        rewards: 0,
        consumption: 0,
        balance: 0,
    }
}

#[test]
fn deduction_lowers_the_score_and_is_recorded() {
    let mut registry = AdminService::new();
    join_registry(&mut registry, 1, "alpha", 9);
    let mut credit = CreditService::new();
    let now = 1_700_000_123_000_000_000u64;
    let record = credit
        .create_deduction_record(&mut registry, &party(9), deduction(1, 30), now)
        .unwrap();
    assert_eq!(record.id, "1");
    assert_eq!(record.record_id, "CR1700000123001");
    assert_eq!(record.institution_id, party(1));
    assert_eq!(record.institution_name, "alpha");
    assert_eq!(record.deduction_points, 30);
    assert_eq!(record.reason, "late data");
    assert_eq!(record.data_quality_issue, "missing fields");
    assert_eq!(record.created_at, now);
    assert_eq!(record.operator_id, party(9));
    assert_eq!(record.operator_name, "Administrator");
    let inst = registry.get_institution(&party(1)).unwrap();
    assert_eq!(inst.credit_score.score, 50);
    assert_eq!(inst.credit_score.last_update, now);
    let second = credit
        .create_deduction_record(&mut registry, &party(9), deduction(1, 50), now)
        .unwrap();
    assert_eq!(second.id, "2");
    assert_eq!(second.record_id, "CR1700000123002");
    assert_eq!(registry.get_institution(&party(1)).unwrap().credit_score.score, 0);
}

#[test]
fn deduction_beyond_the_score_is_refused() {
    let mut registry = AdminService::new();
    join_registry(&mut registry, 1, "alpha", 9);
    let mut credit = CreditService::new();
    let refused = credit.create_deduction_record(&mut registry, &party(9), deduction(1, 81), 5);
    assert_eq!(
        refused.unwrap_err(),
        "Deduction points (81) exceed current credit score (80)"
    );
    let unknown = credit.create_deduction_record(&mut registry, &party(9), deduction(2, 1), 5);
    assert_eq!(unknown.unwrap_err(), "Institution does not exist");
    assert!(credit.get_deduction_records(None).is_empty());
    assert_eq!(registry.get_institution(&party(1)).unwrap().credit_score.score, 80);
}

#[test]
fn deductions_are_listed_by_institution() {
    let mut registry = AdminService::new();
    join_registry(&mut registry, 1, "alpha", 9);
    join_registry(&mut registry, 2, "beta", 9);
    let mut credit = CreditService::new();
    for (tag, points) in [(1u8, 1u32), (2, 2), (1, 3)] {
        credit
            .create_deduction_record(&mut registry, &party(9), deduction(tag, points), 7)
            .unwrap();
    }
    let all = credit.get_deduction_records(None);
    assert_eq!(all.len(), 3);
    let first = party(1);
    let of_first = credit.get_deduction_records(Some(&first));
    let points: Vec<u32> = of_first.iter().map(|r| r.deduction_points).collect();
    assert_eq!(points, vec![1, 3]);
    let nobody = party(3);
    assert!(credit.get_deduction_records(Some(&nobody)).is_empty());
}

#[test]
fn reference_numbers_are_padded_to_three_digits() {
    let mut registry = AdminService::new();
    join_registry(&mut registry, 1, "alpha", 9);
    let mut credit = CreditService::new();
    let mut last = String::new();
    for _ in 0..100 {
        last = credit
            .create_deduction_record(&mut registry, &party(9), deduction(1, 0), 2_000_000_000)
            .unwrap()
            .record_id;
    }
    assert_eq!(last, "CR2100");
    let tenth = &credit.get_deduction_records(None)[9];
    assert_eq!(tenth.record_id, "CR2010");
    assert_eq!(tenth.id, "10");
}

#[test]
fn credit_levels() {
    let dashboard = DashboardService::new();
    let cases = [
        (100u64, "AAA"),
        (90, "AAA"),
        (89, "AA"),
        (80, "AA"),
        (79, "A"),
        (70, "A"),
        (69, "BBB"),
        (60, "BBB"),
        (59, "BB"),
        (50, "BB"),
        (49, "C"),
        (0, "C"),
        (101, "C"),
    ];
    for (score, level) in cases {
        let inst = institution_with_score(score, InstitutionStatus::Active, 0);
        assert_eq!(dashboard.get_credit_level(&inst), level, "score {}", score);
    }
}

#[test]
fn level_distribution_and_statistics() {
    let dashboard = DashboardService::new();
    let institutions: Vec<Institution> = vec![
        institution_with_score(95, InstitutionStatus::Active, 10),
        institution_with_score(92, InstitutionStatus::Inactive, 20),
        institution_with_score(85, InstitutionStatus::Active, 30),
        institution_with_score(75, InstitutionStatus::Active, 0),
        institution_with_score(65, InstitutionStatus::Inactive, 0),
        institution_with_score(55, InstitutionStatus::Active, 5),
        institution_with_score(10, InstitutionStatus::Active, 0),
        institution_with_score(200, InstitutionStatus::Active, 0),
    ];
    let levels = dashboard.calculate_level_distribution(&institutions);
    assert_eq!(levels.aaa_count, 2);
    assert_eq!(levels.aa_count, 1);
    assert_eq!(levels.a_count, 1);
    assert_eq!(levels.bbb_count, 1);
    assert_eq!(levels.bb_count, 1);
    assert_eq!(levels.other_count, 2);
    let stats = DashboardService::get_statistics(&institutions);
    assert_eq!(stats.total_institutions, 8);
    assert_eq!(stats.active_institutions, 6);
    assert_eq!(stats.total_dcc_consumed, 65);
    let empty = DashboardService::get_statistics(&Vec::new());
    assert_eq!(empty.total_institutions, 0);
    assert_eq!(empty.active_institutions, 0);
}

fn submission(tag: u8, content: RecordContent, record_type: RecordType) -> RecordSubmissionRequest {
    RecordSubmissionRequest {
        institution_id: party(tag),
        record_type,
        user_did: "did:k".to_string(),
        event_date: "2024-02-02".to_string(),
        content,
        content_bytes: b"bytes".to_vec(),
    }
}

fn loan_content(amount: u64) -> RecordContent {
    RecordContent::Loan(LoanContent {
        amount,
        loan_id: "L".to_string(),
        term_months: 3,
        interest_rate_bits: 7.25f64.to_bits(),
    })
}

#[test]
fn statistics_and_dashboard_of_an_institution() {
    let mut registry = AdminService::new();
    join_registry(&mut registry, 1, "alpha", 9);
    join_registry(&mut registry, 2, "beta", 9);
    let mut storage = StorageService::new();
    let mut service = RecordService::new(AccountId::new(vec![1]), 4);
    let first = service
        .submit_record(
            &mut registry,
            &mut storage,
            submission(1, loan_content(5), RecordType::LoanRecord),
            10,
            1,
        )
        .unwrap();
    let second = service
        .submit_record(
            &mut registry,
            &mut storage,
            submission(
                1,
                RecordContent::Repayment(RepaymentContent {
                    amount: 5,
                    loan_id: "L".to_string(),
                    repayment_date: "2024-03-01".to_string(),
                }),
                RecordType::RepaymentRecord,
            ),
            11,
            2,
        )
        .unwrap();
    let _ = service.submit_record(
        &mut registry,
        &mut storage,
        submission(1, loan_content(0), RecordType::LoanRecord),
        12,
        3,
    );
    service
        .submit_record(
            &mut registry,
            &mut storage,
            submission(
                2,
                RecordContent::Notification(NotificationContent {
                    amount: 1,
                    days: 2,
                    period_amount: 3,
                }),
                RecordType::NotificationRecord,
            ),
            13,
            4,
        )
        .unwrap();
    service.verify_and_commit(&storage, &first, b"bytes").unwrap();
    service.verify_and_commit(&storage, &second, b"bytes").unwrap();

    let all = service.get_record_statistics(None).unwrap();
    assert_eq!(all.total_records, 4);
    assert_eq!(all.pending_records, 1);
    assert_eq!(all.confirmed_records, 2);
    assert_eq!(all.rejected_records, 1);
    assert_eq!(all.total_rewards, 0);
    let owner = party(1);
    let own = service.get_record_statistics(Some(&owner)).unwrap();
    assert_eq!(own.total_records, 3);
    assert_eq!(own.pending_records, 0);
    assert_eq!(own.confirmed_records, 2);
    assert_eq!(own.rejected_records, 1);

    let mut dashboard = DashboardService::new();
    dashboard.update_token_stats(4, 6);
    registry.record_token_trading(&party(1), true, 50, 20);
    registry.record_token_trading(&party(1), false, 20, 21);
    let data = dashboard
        .get_institution_dashboard(&registry, &service, &party(1), 66)
        .unwrap();
    assert_eq!(data.basic_info.name, "alpha");
    assert_eq!(
        data.basic_info.id,
        candid::Principal::from_slice(&[1, 0, 1]).to_text()
    );
    assert_eq!(data.basic_info.status, InstitutionStatus::Inactive);
    assert_eq!(data.basic_info.credit_level, "AA");
    assert_eq!(data.basic_info.credit_score, 80);
    assert_eq!(data.submission_stats.today_submissions, 3);
    assert_eq!(data.submission_stats.total_submissions, 3);
    assert_eq!(data.submission_stats.submission_distribution.loan_records, 1);
    assert_eq!(data.submission_stats.submission_distribution.repayment_records, 1);
    assert_eq!(data.submission_stats.submission_distribution.notification_records, 0);
    assert_eq!(data.usage_stats.today_query_others, 3);
    assert_eq!(data.usage_stats.today_queried_by_others, 0);
    assert_eq!(data.usage_stats.api_quota.total, 20000);
    assert_eq!(data.token_info.balance, 30);
    assert_eq!(data.token_info.total_spent, 20);
    assert_eq!(data.token_info.total_reward, 50);
    assert_eq!(data.token_info.today_reward, 4);
    assert_eq!(data.token_info.today_spent, 6);
    assert_eq!(data.credit_info.data_quality_score, 66);
    assert_eq!(data.credit_info.credit_level, "AA");
    assert!(data.system_status.api_health);
    assert_eq!(data.system_status.system_version, "1.0.0");
    assert_eq!(
        dashboard
            .get_institution_dashboard(&registry, &service, &party(7), 0)
            .unwrap_err(),
        "机构不存在"
    );

    let records = service.query_records(decent_credit::models::record::RecordQueryParams {
        institution_id: None,
        user_did: None,
        record_type: None,
        start_date: None,
        end_date: None,
        status: None,
    });
    let distribution = dashboard.calculate_data_distribution(&records);
    assert_eq!(distribution.loan_records, 1);
    assert_eq!(distribution.repayment_records, 1);
    assert_eq!(distribution.notification_records, 0);

    let flat = service.reconstruct_record_data(&records[0]).unwrap();
    assert_eq!(flat.amount, 5);
    assert_eq!(flat.user_id, b"did:k".to_vec());
    assert_eq!(flat.record_type, 1);
    assert_eq!(flat.timestamp, 10);
    assert_eq!(flat.term_months, Some(3));
    assert_eq!(flat.interest_rate_bits, Some(7.25f64.to_bits()));
    assert_eq!(flat.loan_id, Some("L".to_string()));
    assert_eq!(flat.days, None);
    let notice = service.reconstruct_record_data(&records[3]).unwrap();
    assert_eq!(notice.record_type, 3);
    assert_eq!(notice.days, Some(2));
    assert_eq!(notice.period_amount, Some(3));
    assert_eq!(notice.loan_id, None);
    let repayment = service.reconstruct_record_data(&records[1]).unwrap();
    assert_eq!(repayment.record_type, 2);
    assert_eq!(repayment.loan_id, Some("L".to_string()));
    assert_eq!(repayment.term_months, None);

    let lines = storage.debug_print_records();
    assert_eq!(
        lines,
        vec![
            "=== Current Records ===".to_string(),
            "Record: REC-10-1, Storage: storage-10".to_string(),
            "Record: REC-11-2, Storage: storage-11".to_string(),
            "Record: REC-12-3, Storage: storage-12".to_string(),
            "Record: REC-13-4, Storage: storage-13".to_string(),
            "=== End Records ===".to_string(),
        ]
    );
    assert_eq!(StorageService::new().debug_print_records().len(), 2);
}

#[test]
fn institutions_of_a_caller() {
    let mut registry = AdminService::new();
    join_registry(&mut registry, 1, "alpha", 8);
    join_registry(&mut registry, 2, "beta", 9);
    join_registry(&mut registry, 3, "gamma", 8);
    let names: Vec<String> = registry
        .get_caller_institutions(&party(8))
        .into_iter()
        .map(|i| i.name)
        .collect();
    assert_eq!(names, vec!["alpha", "gamma"]);
    registry.delete_institution(&party(1));
    let names: Vec<String> = registry
        .get_caller_institutions(&party(8))
        .into_iter()
        .map(|i| i.name)
        .collect();
    assert_eq!(names, vec!["gamma"]);
    assert!(registry.get_caller_institutions(&party(7)).is_empty());
}

#[test]
fn deduction_needs_a_sufficient_balance() {
    let args = TokenService::prepare_deduction(&party(1), 10, 10, "fee".to_string(), 3).unwrap();
    assert_eq!(args.to, party(1));
    assert_eq!(args.amount, 10);
    assert_eq!(args.memo, b"fee".to_vec());
    assert_eq!(args.created_at_time, Some(3));
    assert_eq!(
        TokenService::prepare_deduction(&party(1), 9, 10, "fee".to_string(), 3).unwrap_err(),
        "余额不足: 当前 9 < 需要 10"
    );
}

#[test]
fn query_tokens_run_out_after_a_hundred() {
    let mut credit = CreditService::new();
    for _ in 0..100 {
        assert_eq!(credit.deduct_token(&party(1)), Ok(true));
    }
    assert_eq!(credit.deduct_token(&party(1)), Err("代币余额不足".to_string()));
    assert_eq!(credit.deduct_token(&party(1)), Err("代币余额不足".to_string()));
    assert_eq!(credit.deduct_token(&party(2)), Ok(true));
}
