//! Conversation messages kept in session memory.

use vstd::prelude::*;
use std::time::SystemTime;

verus! {

/// Simple user input.
#[derive(Debug, Clone)]
pub struct UserMessage {
    /// Message content.
    pub content: String,
}

impl UserMessage {
    /// A user message with the given content.
    pub fn new(content: &str) -> (r: UserMessage)
        ensures
            r.content@ == content@,
    {
        UserMessage { content: String::from_str(content) }
    }
}

/// Role of a message in memory (chat roles, plus tool).
#[derive(Debug, Clone, Copy, PartialEq, Eq, Structural)]
pub enum MessageRole {
    /// System prompt.
    System,
    /// User message.
    User,
    /// Assistant reply.
    Assistant,
    /// Tool call or tool result.
    Tool,
}

/// A message in session memory: role, content, optional timestamp.
#[derive(Debug, Clone)]
pub struct Message {
    /// Role.
    pub role: MessageRole,
    /// Body.
    pub content: String,
    /// Optional timestamp.
    pub timestamp: Option<SystemTime>,
}

impl Message {
    /// A system message without timestamp.
    pub fn system(content: &str) -> (r: Message)
        ensures
            r.role == MessageRole::System,
            r.content@ == content@,
            r.timestamp is None,
    {
        Message { role: MessageRole::System, content: String::from_str(content), timestamp: None }
    }

    /// A user message without timestamp.
    pub fn user(content: &str) -> (r: Message)
        ensures
            r.role == MessageRole::User,
            r.content@ == content@,
            r.timestamp is None,
    {
        Message { role: MessageRole::User, content: String::from_str(content), timestamp: None }
    }

    /// An assistant message without timestamp.
    pub fn assistant(content: &str) -> (r: Message)
        ensures
            r.role == MessageRole::Assistant,
            r.content@ == content@,
            r.timestamp is None,
    {
        Message { role: MessageRole::Assistant, content: String::from_str(content), timestamp: None }
    }

    /// A tool message without timestamp.
    pub fn tool(content: &str) -> (r: Message)
        ensures
            r.role == MessageRole::Tool,
            r.content@ == content@,
            r.timestamp is None,
    {
        Message { role: MessageRole::Tool, content: String::from_str(content), timestamp: None }
    }

    /// Sets the timestamp, keeping role and content.
    pub fn with_timestamp(self, t: SystemTime) -> (r: Message)
        ensures
            r.role == self.role,
            r.content == self.content,
            r.timestamp == Some(t),
    {
        Message { role: self.role, content: self.content, timestamp: Some(t) }
    }
}

/// A tool call: tool name and argument text (such as JSON).
#[derive(Debug, Clone)]
pub struct ToolCall {
    /// Tool name.
    pub name: String,
    /// Argument text.
    pub arguments: String,
}

/// A tool call's result.
#[derive(Debug, Clone)]
pub struct ToolResult {
    /// Tool name.
    pub name: String,
    /// Returned content.
    pub content: String,
}

} // verus!
