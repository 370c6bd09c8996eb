pub mod admin_institution_service;
pub mod credit_service;
pub mod crypto_service;
pub mod dashboard_service;
pub mod logger;
pub mod record_service;
pub mod settlement;
pub mod storage_service;
pub mod subject_query;
pub mod token_service;
pub mod zk_proof_service;
