//! Agent toolkit: actor protocol values, LLM request/response values and mock
//! clients, conversation messages, the chat agent and its tools.

pub mod actor;
pub mod agent;
pub mod error;
pub mod llm;
pub mod message;
pub mod tool;
pub mod mock;
