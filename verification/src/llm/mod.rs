pub mod client;
pub mod prompts;
