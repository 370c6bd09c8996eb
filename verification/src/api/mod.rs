pub mod record_api;
