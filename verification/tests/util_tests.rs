use decent_credit::models::account::AccountId;
use decent_credit::models::dashboard::DashboardError;
use decent_credit::services::dashboard_service::{start_of_day, DashboardService};
use decent_credit::services::logger::{
    log_debug, log_error, log_info, log_warning, LogLevel, Logger,
};
use decent_credit::services::storage_service::StorageService;
use decent_credit::utils::bytes::{
    bytes_equal, concat_bytes, copy_bytes, u64_to_be_bytes, u64_to_le_bytes,
};
use decent_credit::utils::error::Error;
use decent_credit::utils::keyed::VecMap;
use decent_credit::utils::text::{join, u64_to_decimal};

#[test]
fn decimal_text_of_integers() {
    assert_eq!(u64_to_decimal(0), "0");
    assert_eq!(u64_to_decimal(7), "7");
    assert_eq!(u64_to_decimal(10), "10");
    assert_eq!(u64_to_decimal(1_000_000_007), "1000000007");
    assert_eq!(u64_to_decimal(u64::MAX), u64::MAX.to_string());
    assert_eq!(join("ab", "cd"), "abcd");
}

#[test]
fn integers_as_bytes() {
    let x = 0x0102_0304_0506_0708u64;
    assert_eq!(u64_to_be_bytes(x), x.to_be_bytes().to_vec());
    assert_eq!(u64_to_le_bytes(x), x.to_le_bytes().to_vec());
    assert_eq!(u64_to_be_bytes(u64::MAX), vec![255u8; 8]);
    assert_eq!(u64_to_le_bytes(0), vec![0u8; 8]);
}

#[test]
fn byte_strings() {
    assert!(bytes_equal(b"abc", b"abc"));
    assert!(!bytes_equal(b"abc", b"abd"));
    assert!(!bytes_equal(b"abc", b"ab"));
    assert!(bytes_equal(b"", b""));
    assert_eq!(concat_bytes(b"ab", b"cd"), b"abcd".to_vec());
    assert_eq!(concat_bytes(b"", b""), Vec::<u8>::new());
    assert_eq!(copy_bytes(b"xyz"), b"xyz".to_vec());
}

#[test]
fn account_identifiers_compare_by_bytes() {
    assert_eq!(AccountId::new(vec![1, 2]), AccountId::new(vec![1, 2]));
    assert_ne!(AccountId::new(vec![1, 2]), AccountId::new(vec![1, 3]));
    assert_ne!(AccountId::new(vec![1, 2]), AccountId::new(vec![1]));
    let id = AccountId::new(vec![5, 6, 7]);
    assert_eq!(id.clone(), id);
    assert_eq!(id.as_bytes(), &[5, 6, 7]);
}

#[test]
fn keyed_map_keeps_insertion_order_and_replaces_in_place() {
    let mut map: VecMap<String, u64> = VecMap::new();
    map.insert("b".to_string(), 1);
    map.insert("a".to_string(), 2);
    map.insert("b".to_string(), 3);
    assert_eq!(map.len(), 2);
    assert_eq!(map.key_at(0), "b");
    assert_eq!(*map.value_at(0), 3);
    assert_eq!(map.key_at(1), "a");
    assert_eq!(map.get(&"a".to_string()), Some(&2));
    assert_eq!(map.get(&"c".to_string()), None);
    assert_eq!(map.find(&"a".to_string()), Some(1));
    map.set_value_at(1, 9);
    assert_eq!(map.get(&"a".to_string()), Some(&9));
    assert_eq!(map.remove(&"b".to_string()), Some(3));
    assert_eq!(map.remove(&"b".to_string()), None);
    assert_eq!(map.len(), 1);
    assert_eq!(map.key_at(0), "a");
    map.clear();
    assert_eq!(map.len(), 0);
}

#[test]
fn error_codes_and_texts() {
    let cases: Vec<(Error, u32, &str)> = vec![
        (Error::InvalidData("bad".to_string()), 1001, "bad"),
        (Error::SerializationFailed, 1002, "序列化失败"),
        (Error::EncryptionFailed("enc".to_string()), 1003, "enc"),
        (Error::StorageFailed, 1004, "存储操作失败"),
        (Error::InvalidProof, 1005, "无效的证明"),
        (Error::RecordNotFound, 1006, "未找到记录"),
        (Error::VerificationFailed("v".to_string()), 1007, "v"),
        (Error::InvalidStatus, 1008, "无效的记录状态"),
        (Error::NotAuthorized, 1009, "未授权的操作"),
        (Error::DatabaseError("db".to_string()), 2001, "db"),
        (Error::NetworkError("net".to_string()), 2002, "net"),
        (Error::ValidationError("val".to_string()), 2003, "val"),
        (Error::InsufficientBalance, 3001, "余额不足"),
        (Error::ResourceNotFound("r".to_string()), 4001, "r"),
        (Error::RateLimitExceeded, 4002, "超出请求限制"),
        (Error::ServiceUnavailable, 5001, "服务暂不可用"),
    ];
    for (error, code, text) in cases {
        assert_eq!(error.to_error_code(), code);
        assert_eq!(error.as_str(), text);
        assert_eq!(error.to_string(), format!("[{}] {}", code, text));
        assert_eq!(error.is_client_error(), code < 5000);
        assert_eq!(error.is_server_error(), code >= 5000);
        assert_eq!(error.is_retryable(), code == 2002 || code == 4002 || code == 5001);
    }
}

#[test]
fn dashboard_error_texts() {
    assert_eq!(DashboardError::NotFound.to_string(), "数据不存在");
    assert_eq!(DashboardError::Unauthorized.to_string(), "未授权访问");
    assert_eq!(DashboardError::InvalidData.to_string(), "数据无效");
    assert_eq!(
        DashboardError::SystemError("disk".to_string()).to_string(),
        "系统错误: disk"
    );
}

#[test]
fn storage_keys_and_chain_index() {
    let mut storage = StorageService::new();
    let key = storage.store_data(vec![1, 2, 3], 42).unwrap();
    assert_eq!(key, "storage-42");
    assert_eq!(storage.get_data("storage-42"), Some(&vec![1, 2, 3]));
    assert_eq!(storage.store_data(vec![9], 42).unwrap(), "storage-42");
    assert_eq!(storage.get_data("storage-42"), Some(&vec![9]));
    assert_eq!(storage.get_data("storage-43"), None);
    storage
        .store_on_chain("rec".to_string(), key.clone(), vec![7, 7])
        .unwrap();
    assert_eq!(storage.get_chain_data("rec"), Some((key.clone(), vec![7, 7])));
    storage
        .store_on_chain("rec".to_string(), "other".to_string(), vec![8])
        .unwrap();
    assert_eq!(
        storage.get_chain_data("rec"),
        Some(("other".to_string(), vec![8]))
    );
    assert_eq!(storage.get_chain_data("none"), None);
    storage.clear_all_data();
    assert_eq!(storage.get_chain_data("rec"), None);
    assert_eq!(storage.get_data("storage-42"), None);
}

#[test]
fn log_keeps_the_last_thousand_entries() {
    let mut logger = Logger::new();
    for i in 0..1005u64 {
        logger.info(format!("entry {}", i), None, i);
    }
    let logs = logger.get_logs();
    assert_eq!(logs.len(), 1000);
    assert_eq!(logs[0].message, "entry 5");
    assert_eq!(logs[0].timestamp, 5);
    assert_eq!(logs[999].message, "entry 1004");
    let recent = logger.get_recent_logs(3);
    let texts: Vec<&str> = recent.iter().map(|e| e.message.as_str()).collect();
    assert_eq!(texts, vec!["entry 1004", "entry 1003", "entry 1002"]);
    assert_eq!(logger.get_recent_logs(5000).len(), 1000);
    assert!(logger.get_recent_logs(0).is_empty());
    logger.clear();
    assert!(logger.get_logs().is_empty());
}

#[test]
fn log_levels_and_context() {
    let mut logger = Logger::new();
    logger.debug("d".to_string(), Some("ctx".to_string()), 1);
    logger.info("i".to_string(), None, 2);
    logger.warning("w".to_string(), None, 3);
    logger.error("e".to_string(), None, 4);
    log_debug(&mut logger, "d2".to_string(), None, 5);
    log_info(&mut logger, "i2".to_string(), None, 6);
    log_warning(&mut logger, "w2".to_string(), None, 7);
    log_error(&mut logger, "e2".to_string(), Some("c".to_string()), 8);
    logger.log(LogLevel::Error, "raw".to_string(), None, 9);
    let logs = logger.get_logs();
    let levels: Vec<LogLevel> = logs.iter().map(|e| e.level).collect();
    assert_eq!(
        levels,
        vec![
            LogLevel::Debug,
            LogLevel::Info,
            LogLevel::Warning,
            LogLevel::Error,
            LogLevel::Debug,
            LogLevel::Info,
            LogLevel::Warning,
            LogLevel::Error,
            LogLevel::Error
        ]
    );
    assert_eq!(logs[0].context, Some("ctx".to_string()));
    assert_eq!(logs[7].context, Some("c".to_string()));
    assert_eq!(logs[8].timestamp, 9);
}

#[test]
fn daily_totals_reset_at_the_day_boundary() {
    let day = 86_400_000_000_000u64;
    assert_eq!(start_of_day(0), 0);
    assert_eq!(start_of_day(day - 1), 0);
    assert_eq!(start_of_day(day), day);
    assert_eq!(start_of_day(5 * day + 17), 5 * day);
    let mut dashboard = DashboardService::new();
    dashboard.update_daily_stats(day + 5, 2);
    assert_eq!(dashboard.stats().last_update, day + 5);
    assert_eq!(dashboard.stats().new_institutions, 2);
    dashboard.update_token_stats(10, 20);
    dashboard.update_daily_stats(2 * day - 1, 7);
    assert_eq!(dashboard.stats().token_rewards, 10);
    assert_eq!(dashboard.stats().token_consumption, 20);
    assert_eq!(dashboard.stats().new_institutions, 2);
    dashboard.update_daily_stats(2 * day, 7);
    assert_eq!(dashboard.stats().token_rewards, 0);
    assert_eq!(dashboard.stats().token_consumption, 0);
    assert_eq!(dashboard.stats().new_institutions, 7);
    assert_eq!(dashboard.stats().last_update, 2 * day);
}

#[test]
fn expired_records_are_removed_with_their_payloads() {
    let mut storage = StorageService::new();
    for (record, time) in [("a", 1u64), ("b", 2), ("c", 3)] {
        let key = storage.store_data(vec![time as u8], time).unwrap();
        storage.store_on_chain(record.to_string(), key, vec![0]).unwrap();
    }
    let removed = storage.cleanup_old_data(&vec![
        "b".to_string(),
        "x".to_string(),
        "b".to_string(),
        "a".to_string(),
    ]);
    assert_eq!(removed, 2);
    assert!(storage.get_chain_data("a").is_none());
    assert!(storage.get_chain_data("b").is_none());
    assert!(storage.get_data("storage-1").is_none());
    assert!(storage.get_data("storage-2").is_none());
    assert_eq!(storage.get_chain_data("c"), Some(("storage-3".to_string(), vec![0])));
    assert_eq!(storage.get_data("storage-3"), Some(&vec![3u8]));
    assert_eq!(storage.cleanup_old_data(&Vec::new()), 0);
}
