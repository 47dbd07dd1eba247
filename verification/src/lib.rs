//! Command-line client core for the EarningsFeed API: typed request
//! construction with pagination, a credential store with safe display
//! semantics, and an error taxonomy mapped to stable process exit codes.

pub mod cli;
pub mod commands;
pub mod config;
pub mod dispatch;
pub mod error;
pub mod params;
