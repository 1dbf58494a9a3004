//! Verified core of the job agent: text handling, service-provider selection,
//! endpoint construction, database bootstrap decisions and the terminal UI state machine.

pub mod text;
pub mod endpoint;
pub mod chat;
pub mod provider;
pub mod storage;
pub mod cli;
pub mod urls;
pub mod layout;
pub mod tui;
pub mod bridge_log;
