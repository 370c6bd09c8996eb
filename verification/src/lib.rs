//! Credit-record lifecycle and token-settled query pipeline.
//!
//! Institutions submit credit events about a subject; each event is
//! encrypted, bound to an integrity proof, stored behind a content-addressed
//! index and later served to other institutions against a query fee.

pub mod api;
pub mod laws;
pub mod models;
pub mod services;
pub mod utils;
