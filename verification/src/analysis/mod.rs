pub mod parser;
pub mod analyzer;
