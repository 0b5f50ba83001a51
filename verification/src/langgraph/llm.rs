//! LLM request, response and usage values, and mock clients that answer
//! without calling a model.

use vstd::prelude::*;

verus! {

/// Role of one chat message.
#[derive(Debug, Clone, Copy, PartialEq, Eq, Structural)]
pub enum MessageRole {
    /// System prompt.
    System,
    /// User message.
    User,
    /// Assistant reply.
    Assistant,
}

/// One chat message.
#[derive(Debug, Clone)]
pub struct ChatMessage {
    pub role: MessageRole,
    pub content: String,
}

impl ChatMessage {
    /// The role and characters of the message.
    pub open spec fn view(self) -> (MessageRole, Seq<char>) {
        (self.role, self.content@)
    }

    /// A system message.
    pub fn system(content: &str) -> (r: ChatMessage)
        ensures
            r.role == MessageRole::System,
            r.content@ == content@,
    {
        ChatMessage { role: MessageRole::System, content: String::from_str(content) }
    }

    /// A user message.
    pub fn user(content: &str) -> (r: ChatMessage)
        ensures
            r.role == MessageRole::User,
            r.content@ == content@,
    {
        ChatMessage { role: MessageRole::User, content: String::from_str(content) }
    }

    /// An assistant message.
    pub fn assistant(content: &str) -> (r: ChatMessage)
        ensures
            r.role == MessageRole::Assistant,
            r.content@ == content@,
    {
        ChatMessage { role: MessageRole::Assistant, content: String::from_str(content) }
    }
}

/// The role and characters of each message, in order.
pub open spec fn chat_view(ms: Seq<ChatMessage>) -> Seq<(MessageRole, Seq<char>)> {
    ms.map_values(|m: ChatMessage| m.view())
}

/// A chat request.
#[derive(Debug, Clone)]
pub struct ChatRequest {
    /// Messages, in order.
    pub messages: Vec<ChatMessage>,
    /// Optional sampling temperature, held as the IEEE-754 bit pattern of its `f32` value.
    pub temperature_bits: Option<u32>,
    /// Optional limit on generated tokens.
    pub max_tokens: Option<u32>,
}

impl ChatRequest {
    /// A single-turn request holding one user message.
    pub fn single_turn(user_content: &str) -> (r: ChatRequest)
        ensures
            chat_view(r.messages@) == seq![(MessageRole::User, user_content@)],
            r.temperature_bits is None,
            r.max_tokens is None,
    {
        let mut messages: Vec<ChatMessage> = Vec::new();
        messages.push(ChatMessage::user(user_content));
        let r = ChatRequest { messages, temperature_bits: None, max_tokens: None };
        assert(chat_view(r.messages@) =~= seq![(MessageRole::User, user_content@)]);
        r
    }

    /// A single-turn request: the system prompt, then the user message.
    pub fn with_system(system_prompt: &str, user_content: &str) -> (r: ChatRequest)
        ensures
            chat_view(r.messages@) == seq![
                (MessageRole::System, system_prompt@),
                (MessageRole::User, user_content@),
            ],
            r.temperature_bits is None,
            r.max_tokens is None,
    {
        let mut messages: Vec<ChatMessage> = Vec::new();
        messages.push(ChatMessage::system(system_prompt));
        messages.push(ChatMessage::user(user_content));
        let r = ChatRequest { messages, temperature_bits: None, max_tokens: None };
        assert(chat_view(r.messages@) =~= seq![
            (MessageRole::System, system_prompt@),
            (MessageRole::User, user_content@),
        ]);
        r
    }
}

/// Token usage.
#[derive(Debug, Clone)]
pub struct Usage {
    /// Tokens consumed by the prompt.
    pub prompt_tokens: u32,
    /// Tokens consumed by the completion.
    pub completion_tokens: u32,
}

impl Default for Usage {
    fn default() -> (r: Usage)
        ensures
            r.prompt_tokens == 0,
            r.completion_tokens == 0,
    {
        Usage { prompt_tokens: 0, completion_tokens: 0 }
    }
}

/// A chat response.
#[derive(Debug, Clone)]
pub struct ChatResponse {
    /// The assistant's reply.
    pub content: String,
    /// Token usage.
    pub usage: Usage,
}

/// One event of a streamed chat.
#[derive(Debug, Clone)]
pub enum ChatStreamEvent {
    /// One token or text fragment.
    Token(String),
    /// End of stream, with the full content.
    Done(String),
    /// An error in the stream, with its message.
    Error(String),
}

} // verus!
