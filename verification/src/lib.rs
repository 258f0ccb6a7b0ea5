pub mod analysis;
pub mod backfill;
pub mod config;
pub mod cli;
pub mod db;
pub mod llm;
pub mod mcp;
pub mod pdf;
pub mod practice;
pub mod storage;
pub mod summary;
pub mod text;
