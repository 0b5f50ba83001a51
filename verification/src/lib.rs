//! Verified core of the OpenCode SDK and its companion agent toolkit.

pub mod sys;
pub mod text;
pub mod json;
pub mod event;
pub mod langgraph;
pub mod client;
pub mod session;
pub mod open;
pub mod reply_log;
pub mod zoekt;
pub mod agora;
pub mod log_config;
