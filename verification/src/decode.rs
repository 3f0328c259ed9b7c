//! The decode session: configuration, results, and the state machine that
//! answers the engine's reports.

pub mod config;
pub mod session;
pub mod types;
