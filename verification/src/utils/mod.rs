pub mod bytes;
pub mod digest;
pub mod error;
pub mod keyed;
pub mod principal;
pub mod seqs;
pub mod text;
