use decent_credit::api::record_api::{
    query_record_by_id, query_records_by_user_did, submit_record, submit_records_batch,
    verify_and_commit, verify_records_batch,
};
use decent_credit::models::account::AccountId;
use decent_credit::models::institution::{RegisterRequest, UpdateServiceSettingsRequest};
use decent_credit::models::record::{
    BatchSubmissionRequest, LoanContent, RecordContent, RecordStatus, RecordSubmissionRequest,
    RecordType,
};
use decent_credit::services::admin_institution_service::AdminService;
use decent_credit::services::record_service::RecordService;
use decent_credit::services::storage_service::StorageService;

const NOW: u64 = 1_700_000_000_000_000_000;

fn id_of(tag: u8) -> AccountId {
    AccountId::new(vec![tag, 7])
}

fn fresh() -> (RecordService, AdminService, StorageService) {
    (
        RecordService::new(AccountId::new(vec![3]), 99),
        AdminService::new(),
        StorageService::new(),
    )
}

fn enroll(registry: &mut AdminService, tag: u8, name: &str, price: u64, enabled: bool) {
    let request = RegisterRequest {
        name: name.to_string(),
        full_name: format!("{} Bank", name),
        password: None,
        principal: String::new(),
    };
    registry
        .register_with_id(request, Some(id_of(tag)), &id_of(250), NOW)
        .unwrap();
    registry
        .update_service_settings(
            &id_of(tag),
            UpdateServiceSettingsRequest {
                data_service_enabled: enabled,
                query_price: price,
                reward_share_ratio: 0,
            },
        )
        .unwrap();
}

fn request(tag: u8, subject: &str, amount: u64) -> RecordSubmissionRequest {
    RecordSubmissionRequest {
        institution_id: id_of(tag),
        record_type: RecordType::LoanRecord,
        user_did: subject.to_string(),
        event_date: "2024-05-01".to_string(),
        content: RecordContent::Loan(LoanContent {
            amount,
            loan_id: "L-9".to_string(),
            term_months: 6,
            interest_rate_bits: 4.5f64.to_bits(),
        }),
        content_bytes: format!("payload-{}", amount).into_bytes(),
    }
}

#[test]
fn own_records_are_served_free_of_charge() {
    let (mut service, mut registry, mut storage) = fresh();
    enroll(&mut registry, 1, "alpha", 100, true);
    service
        .submit_record(&mut registry, &mut storage, request(1, "did:s", 10), NOW, 1)
        .unwrap();
    service
        .submit_record(&mut registry, &mut storage, request(1, "did:s", 20), NOW, 2)
        .unwrap();
    let found = service
        .get_record_userId(&mut registry, &storage, &id_of(1), "did:s".to_string())
        .unwrap();
    assert_eq!(found.records.len(), 2);
    assert!(found.settlements.is_empty());
    for record in &found.records {
        assert_eq!(record.query_price, 0);
        assert_eq!(record.institution_id, id_of(1));
    }
    let reader = registry.get_institution(&id_of(1)).unwrap();
    assert_eq!(reader.outbound_queries, 0);
    assert_eq!(reader.inbound_queries, 0);
    let stored = service.get_record(&found.records[0].id).unwrap();
    assert_eq!(stored.query_price, 100);
}

#[test]
fn records_of_others_cost_their_owners_price() {
    let (mut service, mut registry, mut storage) = fresh();
    enroll(&mut registry, 1, "alpha", 100, true);
    enroll(&mut registry, 2, "beta", 30, true);
    enroll(&mut registry, 3, "gamma", 5, true);
    service
        .submit_record(&mut registry, &mut storage, request(1, "did:s", 10), NOW, 1)
        .unwrap();
    service
        .submit_record(&mut registry, &mut storage, request(2, "did:s", 20), NOW, 2)
        .unwrap();
    service
        .submit_record(&mut registry, &mut storage, request(3, "did:other", 30), NOW, 3)
        .unwrap();
    service
        .submit_record(&mut registry, &mut storage, request(1, "did:s", 40), NOW, 4)
        .unwrap();
    let found = service
        .get_record_userId(&mut registry, &storage, &id_of(2), "did:s".to_string())
        .unwrap();
    let prices: Vec<u64> = found.records.iter().map(|r| r.query_price).collect();
    assert_eq!(prices, vec![100, 0, 100]);
    assert_eq!(found.settlements.len(), 2);
    for op in &found.settlements {
        assert_eq!(op.from_id, id_of(2));
        assert_eq!(op.to_id, id_of(1));
        assert_eq!(op.user_did, "did:s");
        assert_eq!(op.query_price, 100);
    }
    assert_eq!(found.settlements[0].record.id, format!("REC-{}-1", NOW));
    assert_eq!(found.settlements[1].record.id, format!("REC-{}-4", NOW));
    assert_eq!(registry.get_institution(&id_of(2)).unwrap().outbound_queries, 2);
    assert_eq!(registry.get_institution(&id_of(1)).unwrap().inbound_queries, 2);
    assert_eq!(registry.get_institution(&id_of(3)).unwrap().inbound_queries, 0);
}

#[test]
fn disabled_owner_blocks_the_whole_query() {
    let (mut service, mut registry, mut storage) = fresh();
    enroll(&mut registry, 1, "alpha", 100, false);
    enroll(&mut registry, 2, "beta", 30, true);
    enroll(&mut registry, 3, "gamma", 5, true);
    service
        .submit_record(&mut registry, &mut storage, request(3, "did:s", 10), NOW, 1)
        .unwrap();
    service
        .submit_record(&mut registry, &mut storage, request(1, "did:s", 20), NOW, 2)
        .unwrap();
    service
        .submit_record(&mut registry, &mut storage, request(2, "did:s", 30), NOW, 3)
        .unwrap();
    let result = service.get_record_userId(&mut registry, &storage, &id_of(2), "did:s".to_string());
    assert_eq!(result.unwrap_err(), "机构 alpha 未开启数据服务");
    assert_eq!(registry.get_institution(&id_of(2)).unwrap().outbound_queries, 0);
    assert_eq!(registry.get_institution(&id_of(3)).unwrap().inbound_queries, 0);
    assert_eq!(registry.get_institution(&id_of(1)).unwrap().inbound_queries, 0);

    let own = service
        .get_record_userId(&mut registry, &storage, &id_of(1), "did:s".to_string());
    assert_eq!(own.unwrap().records.len(), 3);

    let other_subject = service
        .get_record_userId(&mut registry, &storage, &id_of(2), "did:none".to_string())
        .unwrap();
    assert!(other_subject.records.is_empty());
}

#[test]
fn unregistered_owner_blocks_the_query() {
    let (mut service, mut registry, mut storage) = fresh();
    enroll(&mut registry, 1, "alpha", 100, true);
    enroll(&mut registry, 2, "beta", 30, true);
    service
        .submit_record(&mut registry, &mut storage, request(1, "did:s", 10), NOW, 1)
        .unwrap();
    assert!(registry.delete_institution(&id_of(1)));
    let result = service.get_record_userId(&mut registry, &storage, &id_of(2), "did:s".to_string());
    assert_eq!(result.unwrap_err(), "机构不存在");
}

#[test]
fn unreadable_records_are_left_out() {
    let (mut service, mut registry, mut storage) = fresh();
    enroll(&mut registry, 1, "alpha", 100, true);
    service
        .submit_record(&mut registry, &mut storage, request(1, "did:s", 10), NOW, 1)
        .unwrap();
    storage.clear_all_data();
    let found = service
        .get_record_userId(&mut registry, &storage, &id_of(1), "did:s".to_string())
        .unwrap();
    assert!(found.records.is_empty());
    let lookup = service.get_record_by_id(
        &mut registry,
        &storage,
        &format!("REC-{}-1", NOW),
        &id_of(1),
        NOW,
    );
    assert!(lookup.0.is_none());
    assert!(lookup.1.is_none());
    assert_eq!(registry.get_institution(&id_of(1)).unwrap().api_calls, 0);
}

#[test]
fn reading_one_record_counts_and_settles() {
    let (mut service, mut registry, mut storage) = fresh();
    enroll(&mut registry, 1, "alpha", 100, true);
    enroll(&mut registry, 2, "beta", 30, true);
    let id = service
        .submit_record(&mut registry, &mut storage, request(1, "did:s", 10), NOW, 1)
        .unwrap();
    let (record, due) = query_record_by_id(
        &service,
        &mut registry,
        &storage,
        id.clone(),
        &id_of(2),
        NOW + 5,
    )
    .unwrap();
    assert_eq!(record.id, id);
    let op = due.unwrap();
    assert_eq!(op.from_id, id_of(2));
    assert_eq!(op.to_id, id_of(1));
    assert_eq!(op.query_price, 100);
    assert_eq!(op.user_did, "did:s");
    let reader = registry.get_institution(&id_of(2)).unwrap();
    assert_eq!(reader.api_calls, 1);
    assert_eq!(reader.outbound_queries, 1);
    assert_eq!(reader.last_active, NOW + 5);
    let owner = registry.get_institution(&id_of(1)).unwrap();
    assert_eq!(owner.inbound_queries, 1);
    assert_eq!(owner.api_calls, 0);

    let (_, own_due) =
        query_record_by_id(&service, &mut registry, &storage, id, &id_of(1), NOW + 6).unwrap();
    assert!(own_due.is_none());
    let owner = registry.get_institution(&id_of(1)).unwrap();
    assert_eq!(owner.api_calls, 1);
    assert_eq!(owner.outbound_queries, 0);

    let missing = query_record_by_id(
        &service,
        &mut registry,
        &storage,
        "REC-0-0".to_string(),
        &id_of(1),
        NOW,
    );
    assert_eq!(missing.unwrap_err(), "Record not found");
}

#[test]
fn subject_query_through_the_api() {
    let (mut service, mut registry, mut storage) = fresh();
    enroll(&mut registry, 1, "alpha", 100, true);
    enroll(&mut registry, 2, "beta", 30, true);
    submit_record(
        &mut service,
        &mut registry,
        &mut storage,
        request(1, "did:s", 10),
        NOW,
        1,
    )
    .unwrap();
    let found = query_records_by_user_did(
        &service,
        &mut registry,
        &storage,
        &id_of(2),
        "did:s".to_string(),
    )
    .unwrap();
    assert_eq!(found.records.len(), 1);
    assert_eq!(found.records[0].query_price, 100);
    assert_eq!(found.settlements.len(), 1);
}

#[test]
fn single_submission_response() {
    let (mut service, mut registry, mut storage) = fresh();
    enroll(&mut registry, 1, "alpha", 100, true);
    let response = submit_record(
        &mut service,
        &mut registry,
        &mut storage,
        request(1, "did:s", 10),
        NOW,
        3,
    )
    .unwrap();
    assert_eq!(response.record_id, format!("REC-{}-3", NOW));
    assert_eq!(response.status, RecordStatus::Pending);
    assert_eq!(response.timestamp, NOW);
    assert_eq!(response.reward_amount, None);
    let refused = submit_record(
        &mut service,
        &mut registry,
        &mut storage,
        request(1, "did:s", 0),
        NOW,
        4,
    );
    assert_eq!(
        refused.unwrap_err(),
        "提交记录失败: Invalid loan data: missing required fields"
    );
    let unknown = submit_record(
        &mut service,
        &mut registry,
        &mut storage,
        request(9, "did:s", 10),
        NOW,
        5,
    );
    assert_eq!(unknown.unwrap_err(), "提交记录失败: 机构不存在");
}

#[test]
fn empty_batch_is_refused() {
    let (mut service, mut registry, mut storage) = fresh();
    enroll(&mut registry, 1, "alpha", 100, true);
    let result = submit_records_batch(
        &mut service,
        &mut registry,
        &mut storage,
        BatchSubmissionRequest { records: Vec::new() },
        NOW,
        0,
    );
    assert_eq!(result.unwrap_err(), "没有有效的记录");
    assert_eq!(service.record_count(), 0);
}

#[test]
fn oversized_batch_is_refused() {
    let (mut service, mut registry, mut storage) = fresh();
    enroll(&mut registry, 1, "alpha", 100, true);
    let records = (0..1001).map(|i| request(1, "did:s", i + 1)).collect();
    let result = submit_records_batch(
        &mut service,
        &mut registry,
        &mut storage,
        BatchSubmissionRequest { records },
        NOW,
        0,
    );
    assert_eq!(result.unwrap_err(), "单次提交不能超过1000条记录");
    assert_eq!(service.record_count(), 0);
    assert_eq!(registry.get_institution(&id_of(1)).unwrap().data_uploads, 0);
}

#[test]
fn full_batch_of_valid_records_is_accepted() {
    let (mut service, mut registry, mut storage) = fresh();
    enroll(&mut registry, 1, "alpha", 100, true);
    let records = (0..1000).map(|i| request(1, "did:s", i + 1)).collect();
    let response = submit_records_batch(
        &mut service,
        &mut registry,
        &mut storage,
        BatchSubmissionRequest { records },
        NOW,
        500,
    )
    .unwrap();
    assert_eq!(response.submitted, 1000);
    assert_eq!(response.failed, 0);
    assert_eq!(response.record_ids.len(), 1000);
    assert_eq!(response.record_ids[0], format!("REC-{}-500", NOW));
    assert_eq!(response.record_ids[999], format!("REC-{}-1499", NOW));
    assert_eq!(response.timestamp, NOW);
    assert_eq!(response.status, RecordStatus::Pending);
    assert_eq!(service.record_count(), 1000);
    assert_eq!(registry.get_institution(&id_of(1)).unwrap().data_uploads, 1000);
}

#[test]
fn batch_goes_on_after_a_refused_record() {
    let (mut service, mut registry, mut storage) = fresh();
    enroll(&mut registry, 1, "alpha", 100, true);
    let records = vec![
        request(1, "did:s", 10),
        request(1, "did:s", 0),
        request(8, "did:s", 10),
        request(1, "did:s", 30),
    ];
    let response = submit_records_batch(
        &mut service,
        &mut registry,
        &mut storage,
        BatchSubmissionRequest { records },
        NOW,
        u64::MAX - 1,
    )
    .unwrap();
    assert_eq!(response.submitted, 2);
    assert_eq!(response.failed, 2);
    assert_eq!(
        response.record_ids,
        vec![format!("REC-{}-{}", NOW, u64::MAX - 1), format!("REC-{}-1", NOW)]
    );
    assert_eq!(service.record_count(), 3);
    assert_eq!(
        service.get_record(&format!("REC-{}-{}", NOW, u64::MAX)).unwrap().status,
        RecordStatus::Rejected
    );
    assert_eq!(registry.get_institution(&id_of(1)).unwrap().data_uploads, 3);
}

#[test]
fn verification_through_the_api() {
    let (mut service, mut registry, mut storage) = fresh();
    enroll(&mut registry, 1, "alpha", 100, true);
    let first = request(1, "did:s", 10);
    let first_bytes = first.content_bytes.clone();
    let second = request(1, "did:s", 20);
    let second_bytes = second.content_bytes.clone();
    let first_id = service
        .submit_record(&mut registry, &mut storage, first, NOW, 1)
        .unwrap();
    let second_id = service
        .submit_record(&mut registry, &mut storage, second, NOW + 1, 2)
        .unwrap();
    assert_eq!(
        verify_and_commit(&mut service, &storage, first_id.clone(), &first_bytes),
        Ok(true)
    );
    assert_eq!(
        verify_and_commit(&mut service, &storage, first_id.clone(), &first_bytes),
        Err("记录验证失败: 无效的记录状态".to_string())
    );
    let results = verify_records_batch(
        &mut service,
        &storage,
        vec![
            (first_id.clone(), first_bytes),
            (second_id.clone(), b"tampered".to_vec()),
            (second_id.clone(), second_bytes),
            ("REC-none".to_string(), Vec::new()),
        ],
    )
    .unwrap();
    assert_eq!(
        results,
        vec![
            (first_id, false),
            (second_id.clone(), false),
            (second_id.clone(), true),
            ("REC-none".to_string(), false)
        ]
    );
    assert_eq!(service.get_record(&second_id).unwrap().status, RecordStatus::Confirmed);
}

#[test]
fn records_of_one_institution() {
    let (mut service, mut registry, mut storage) = fresh();
    enroll(&mut registry, 1, "alpha", 100, true);
    enroll(&mut registry, 2, "beta", 30, true);
    service
        .submit_record(&mut registry, &mut storage, request(1, "did:s", 10), NOW, 1)
        .unwrap();
    service
        .submit_record(&mut registry, &mut storage, request(2, "did:s", 10), NOW, 2)
        .unwrap();
    let _ = service.submit_record(&mut registry, &mut storage, request(1, "did:t", 0), NOW, 3);
    let own = service
        .get_failed_records_storage(&registry, &storage, &id_of(1))
        .unwrap();
    assert_eq!(own.institution_name, "alpha Bank");
    assert_eq!(own.user_did, "");
    assert_eq!(own.records.len(), 2);
    assert!(service
        .get_failed_records_storage(&registry, &storage, &id_of(9))
        .is_err());
    let (response, settlements) = service
        .get_institution_records(&mut registry, &storage, &id_of(2), "did:s")
        .unwrap();
    assert_eq!(response.institution_id, id_of(2));
    assert_eq!(response.institution_name, "beta Bank");
    assert_eq!(response.user_did, "did:s");
    assert_eq!(response.records.len(), 2);
    assert_eq!(settlements.len(), 1);
    assert_eq!(
        service
            .get_institution_records(&mut registry, &storage, &id_of(9), "did:s")
            .unwrap_err(),
        "机构不存在"
    );
}
