//! Chat agent: one question, one answer from the LLM, with an optional system
//! prompt and optional session memory.

use vstd::prelude::*;
use std::sync::Arc;
use crate::langgraph::error::AgentError;
use crate::langgraph::llm::{chat_view, ChatMessage, ChatRequest, ChatStreamEvent, MessageRole as ChatRole};
use crate::langgraph::message::{Message, MessageRole};

verus! {

/// Session memory: recent messages in, new messages recorded.
pub trait Memory: Send + Sync {
    /// `history` is an answer this memory may give when asked for at most
    /// `limit` recent messages; by default any answer is.
    open spec fn recalls(&self, limit: usize, history: Seq<Message>) -> bool {
        true
    }

    /// The most recent messages, at most `limit` of them, oldest first.
    fn get(&self, limit: usize) -> (r: Vec<Message>)
        ensures
            self.recalls(limit, r@);

    /// Records a message.
    fn add(&self, message: Message);
}

/// The chat form of memory messages: tool messages are left out, the others
/// keep their role and content, in order.
pub open spec fn history_view(ms: Seq<Message>) -> Seq<(ChatRole, Seq<char>)>
    decreases ms.len(),
{
    if ms.len() == 0 {
        Seq::empty()
    } else {
        let init = history_view(ms.drop_last());
        let m = ms.last();
        match m.role {
            MessageRole::System => init.push((ChatRole::System, m.content@)),
            MessageRole::User => init.push((ChatRole::User, m.content@)),
            MessageRole::Assistant => init.push((ChatRole::Assistant, m.content@)),
            MessageRole::Tool => init,
        }
    }
}

/// Converts memory messages to LLM request messages; tool messages are skipped.
pub fn messages_to_chat(ms: &[Message]) -> (r: Vec<ChatMessage>)
    ensures
        chat_view(r@) == history_view(ms@),
{
    let mut out: Vec<ChatMessage> = Vec::new();
    let mut i: usize = 0;
    while i < ms.len()
        invariant
            i <= ms@.len(),
            chat_view(out@) == history_view(ms@.take(i as int)),
        decreases ms@.len() - i,
    {
        let m = &ms[i];
        assert(ms@.take(i + 1).drop_last() =~= ms@.take(i as int));
        assert(ms@.take(i + 1).last() == ms@[i as int]);
        match m.role {
            MessageRole::System => out.push(ChatMessage::system(m.content.as_str())),
            MessageRole::User => out.push(ChatMessage::user(m.content.as_str())),
            MessageRole::Assistant => out.push(ChatMessage::assistant(m.content.as_str())),
            MessageRole::Tool => {},
        }
        assert(chat_view(out@) =~= history_view(ms@.take(i + 1)));
        i += 1;
    }
    assert(ms@.take(ms@.len() as int) =~= ms@);
    out
}

/// The messages a finished turn adds to memory, in the order they are added: the
/// user input, then the reply, neither with a timestamp.
pub fn turn_messages(user_input: &str, reply: &str) -> (r: Vec<Message>)
    ensures
        r@.len() == 2,
        r@[0].role == MessageRole::User,
        r@[0].content@ == user_input@,
        r@[0].timestamp is None,
        r@[1].role == MessageRole::Assistant,
        r@[1].content@ == reply@,
        r@[1].timestamp is None,
{
    let mut r: Vec<Message> = Vec::new();
    r.push(Message::user(user_input));
    r.push(Message::assistant(reply));
    r
}

/// Recording a turn after `history` extends the chat history the next request
/// sees by the question, then the answer: whatever came before stays in front.
pub proof fn turn_extends_history(history: Seq<Message>, turn: Seq<Message>, question: Seq<char>, answer: Seq<char>)
    requires
        turn.len() == 2,
        turn[0].role == MessageRole::User,
        turn[0].content@ == question,
        turn[1].role == MessageRole::Assistant,
        turn[1].content@ == answer,
    ensures
        history_view(history + turn) == history_view(history).push((ChatRole::User, question)).push(
            (ChatRole::Assistant, answer),
        ),
{
    let all = history + turn;
    let first = history.push(turn[0]);
    assert(all.drop_last() =~= first);
    assert(all.last() == turn[1]);
    assert(first.drop_last() =~= history);
    assert(first.last() == turn[0]);
    assert(history_view(first) == history_view(history).push((ChatRole::User, question)));
}

/// Number of memory messages included in each request.
pub const HISTORY_LIMIT: usize = 64;

/// The request messages for `user_input` after `history`: the system prompt
/// when set, the chat form of the history, then the user input.
pub open spec fn request_view(
    system_prompt: Option<String>,
    history: Seq<Message>,
    user_input: Seq<char>,
) -> Seq<(ChatRole, Seq<char>)> {
    let head = match system_prompt {
        Some(s) => seq![(ChatRole::System, s@)],
        None => Seq::empty(),
    };
    head + history_view(history) + seq![(ChatRole::User, user_input)]
}

/// Chat agent holding an LLM client, an optional system prompt and optional memory.
pub struct ChatAgent<C, M: ?Sized = dyn Memory> {
    /// LLM client.
    pub llm: C,
    /// Optional system prompt; when None, requests hold no system message.
    pub system_prompt: Option<String>,
    /// Optional session memory; with it, requests carry history and each turn is recorded.
    pub memory: Option<Arc<M>>,
}

impl<C> ChatAgent<C> {
    /// An agent for the given client, without system prompt or memory.
    pub fn new(llm: C) -> (r: ChatAgent<C>)
        ensures
            r.llm == llm,
            r.system_prompt is None,
            r.memory is None,
    {
        ChatAgent { llm, system_prompt: None, memory: None }
    }
}

impl<C, M: Memory + ?Sized> ChatAgent<C, M> {

    /// Sets the system prompt.
    pub fn with_system_prompt(self, prompt: &str) -> (r: ChatAgent<C, M>)
        ensures
            r.llm == self.llm,
            r.system_prompt matches Some(p) && p@ == prompt@,
            r.memory == self.memory,
    {
        ChatAgent { llm: self.llm, system_prompt: Some(String::from_str(prompt)), memory: self.memory }
    }

    /// Sets the session memory.
    pub fn with_memory(self, memory: Arc<M>) -> (r: ChatAgent<C, M>)
        ensures
            r.llm == self.llm,
            r.system_prompt == self.system_prompt,
            r.memory == Some(memory),
    {
        let mut agent = self;
        agent.memory = Option::Some(memory);
        agent
    }

    /// The agent's name.
    pub fn name(&self) -> (r: &'static str)
        ensures
            r@ == "ChatAgent"@,
    {
        "ChatAgent"
    }

    /// The request messages for `user_input` after the given history.
    pub fn build_messages_with(&self, user_input: &str, history: &[Message]) -> (r: Vec<ChatMessage>)
        ensures
            chat_view(r@) == request_view(self.system_prompt, history@, user_input@),
    {
        let mut ms: Vec<ChatMessage> = Vec::new();
        if let Some(sys) = &self.system_prompt {
            ms.push(ChatMessage::system(sys.as_str()));
        }
        let mut hist = messages_to_chat(history);
        ms.append(&mut hist);
        ms.push(ChatMessage::user(user_input));
        assert(chat_view(ms@) =~= request_view(self.system_prompt, history@, user_input@));
        ms
    }

    /// The request messages: the system prompt when set, the memory's recent
    /// history (at most `history_limit` messages) when memory is set, then the user input.
    pub fn build_messages(&self, user_input: &str, history_limit: usize) -> (r: Vec<ChatMessage>)
        ensures
            self.memory is None ==> chat_view(r@) == request_view(self.system_prompt, Seq::empty(), user_input@),
            self.memory matches Some(m) ==> exists|h: Seq<Message>| #[trigger] m.recalls(history_limit, h)
                && chat_view(r@) == request_view(self.system_prompt, h, user_input@),
    {
        match &self.memory {
            Some(m) => {
                let hist = m.get(history_limit);
                self.build_messages_with(user_input, hist.as_slice())
            },
            None => {
                let hist: Vec<Message> = Vec::new();
                assert(hist@ =~= Seq::<Message>::empty());
                self.build_messages_with(user_input, hist.as_slice())
            },
        }
    }

    /// The request of one turn: [`ChatAgent::build_messages`] with the
    /// memory's answer for [`HISTORY_LIMIT`] (64) messages, no temperature,
    /// no token limit.
    pub fn chat_request(&self, user_input: &str) -> (r: ChatRequest)
        ensures
            self.memory is None ==> chat_view(r.messages@) == request_view(self.system_prompt, Seq::empty(), user_input@),
            self.memory matches Some(m) ==> exists|h: Seq<Message>| #[trigger] m.recalls(HISTORY_LIMIT, h)
                && chat_view(r.messages@) == request_view(self.system_prompt, h, user_input@),
            r.temperature_bits is None,
            r.max_tokens is None,
    {
        let messages = self.build_messages(user_input, HISTORY_LIMIT);
        ChatRequest { messages, temperature_bits: None, max_tokens: None }
    }

    /// Records a finished turn in memory (when set): the messages of
    /// [`turn_messages`], in order (the user input, then the reply).
    pub fn remember_turn(&self, user_input: &str, reply: &str) {
        if let Some(m) = &self.memory {
            for message in turn_messages(user_input, reply) {
                m.add(message);
            }
        }
    }

    /// The outcome of a turn once the LLM has answered: its reply's content
    /// (after recording the turn in memory, when set), or, when the call
    /// failed with message `e`, `ExecutionFailed(e)` with nothing recorded.
    pub fn finish_turn(&self, user_input: &str, reply: Result<String, String>) -> (r: Result<String, AgentError>)
        ensures
            match reply {
                Ok(c) => r == Ok::<String, AgentError>(c),
                Err(e) => r == Err::<String, AgentError>(AgentError::ExecutionFailed(e)),
            },
    {
        match reply {
            Ok(content) => {
                self.remember_turn(user_input, content.as_str());
                Ok(content)
            },
            Err(e) => Err(AgentError::ExecutionFailed(e)),
        }
    }

    /// What a streamed event becomes for the caller: an error event becomes
    /// `ExecutionFailed` with its message, any other event passes through; a
    /// `Done` event also records the turn in memory.
    pub fn stream_item(&self, user_input: &str, ev: ChatStreamEvent) -> (r: Result<ChatStreamEvent, AgentError>)
        ensures
            match ev {
                ChatStreamEvent::Error(msg) => r matches Err(AgentError::ExecutionFailed(m)) && m == msg,
                _ => r == Ok::<ChatStreamEvent, AgentError>(ev),
            },
    {
        if let ChatStreamEvent::Done(content) = &ev {
            self.remember_turn(user_input, content.as_str());
        }
        match ev {
            ChatStreamEvent::Error(e) => Err(AgentError::ExecutionFailed(e)),
            other => Ok(other),
        }
    }
}

} // verus!
