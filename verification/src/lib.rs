pub mod config;
pub mod emoji;
pub mod orchestrator;
pub mod validate;
pub mod wizard;
