pub mod engine;
pub mod error_records;
pub mod error_records_analysis;
