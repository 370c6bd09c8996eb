pub mod account;
pub mod dashboard;
pub mod institution;
pub mod record;
