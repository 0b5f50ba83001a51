use opencode_sdk::langgraph::actor::{ActorId, Task, TaskResult};
use opencode_sdk::langgraph::agent::{messages_to_chat, ChatAgent, Memory};
use opencode_sdk::langgraph::error::{ActorError, AgentError, StateError, ToolError, ValidationError};
use opencode_sdk::langgraph::llm::{ChatMessage, ChatRequest, ChatStreamEvent, MessageRole, Usage};
use opencode_sdk::langgraph::message::{Message, MessageRole as Role};
use opencode_sdk::langgraph::mock::{MockLlmClient, SequenceMockLlmClient};
use std::sync::{Arc, Mutex};

#[test]
fn task_new_and_with_id() {
    let t = Task::new("hello");
    assert_eq!(t.payload, "hello");
    assert!(t.id.is_none());
    let t = t.with_id("id-1");
    assert_eq!(t.id.as_deref(), Some("id-1"));
}

#[test]
fn task_result_ok_err() {
    let r = TaskResult::ok("done");
    assert!(r.success);
    assert_eq!(r.output, "done");
    let r = TaskResult::err("failed");
    assert!(!r.success);
    assert_eq!(r.output, "failed");
}

#[test]
fn actor_id_display() {
    let id = ActorId::new("w1");
    assert_eq!(id.0, "w1");
    assert_eq!(id.to_string(), "w1");
}

#[test]
fn chat_request_single_turn_roundtrip() {
    let req = ChatRequest::single_turn("你好");
    assert_eq!(req.messages.len(), 1);
    assert_eq!(req.messages[0].role, MessageRole::User);
    assert_eq!(req.messages[0].content, "你好");
}

#[test]
fn chat_request_with_system_roundtrip() {
    let req = ChatRequest::with_system("你是一个助手", "你好");
    assert_eq!(req.messages.len(), 2);
    assert_eq!(req.messages[0].role, MessageRole::System);
    assert_eq!(req.messages[1].role, MessageRole::User);
}

#[test]
fn usage_default() {
    let u = Usage::default();
    assert_eq!(u.prompt_tokens, 0);
    assert_eq!(u.completion_tokens, 0);
}

#[test]
fn chat_message_constructors() {
    assert_eq!(ChatMessage::system("s").role, MessageRole::System);
    assert_eq!(ChatMessage::user("u").role, MessageRole::User);
    assert_eq!(ChatMessage::assistant("a").role, MessageRole::Assistant);
}

#[test]
fn mock_echo_returns_last_user_message() {
    let client = MockLlmClient::echo();
    let req = ChatRequest::single_turn("你好");
    let res = client.respond(&req);
    assert_eq!(res.content, "你好");
}

#[test]
fn mock_fixed_returns_given_response() {
    let client = MockLlmClient::with_fixed_response("这是固定回复");
    let req = ChatRequest::single_turn("任意问题");
    let res = client.respond(&req);
    assert_eq!(res.content, "这是固定回复");
}

#[test]
fn chat_agent_returns_llm_content() {
    let llm = MockLlmClient::with_fixed_response("固定回复");
    let agent = ChatAgent::new(llm);
    let req = agent.chat_request("问什么都可以");
    let out = agent.llm.respond(&req).content;
    assert_eq!(out, "固定回复");
}

#[test]
fn chat_agent_echo_without_system() {
    let llm = MockLlmClient::echo();
    let agent = ChatAgent::new(llm);
    let req = agent.chat_request("你好");
    assert_eq!(req.messages.len(), 1);
    let out = agent.llm.respond(&req).content;
    assert_eq!(out, "你好");
}

#[test]
fn chat_agent_name() {
    let llm = MockLlmClient::echo();
    let agent = ChatAgent::new(llm);
    assert_eq!(agent.name(), "ChatAgent");
}

#[test]
fn mock_usage_counts_half_bytes() {
    // "abcd" (4 bytes) and "你好" (6 bytes): prompt tokens 2 + 3.
    let client = MockLlmClient::with_fixed_response("xyz123");
    let req = ChatRequest::with_system("abcd", "你好");
    let res = client.respond(&req);
    assert_eq!(res.usage.prompt_tokens, 5);
    assert_eq!(res.usage.completion_tokens, 3);
}

#[test]
fn mock_echo_without_user_message() {
    let client = MockLlmClient::new();
    let req = ChatRequest { messages: vec![ChatMessage::system("s")], temperature_bits: None, max_tokens: None };
    assert_eq!(client.respond(&req).content, "（无用户输入）");
}

#[test]
fn mock_stream_splits_and_finishes() {
    let client = MockLlmClient::with_fixed_response("ab");
    let events = client.stream_events(&ChatRequest::single_turn("q"));
    assert_eq!(events.len(), 3);
    assert!(matches!(&events[0], ChatStreamEvent::Token(t) if t == "a"));
    assert!(matches!(&events[1], ChatStreamEvent::Token(t) if t == "b"));
    assert!(matches!(&events[2], ChatStreamEvent::Done(t) if t == "ab"));
}

#[test]
fn sequence_mock_cycles() {
    let mut client = SequenceMockLlmClient::from_slice(&["one", "two"]);
    assert_eq!(client.response_count(), 2);
    assert_eq!(client.response_at(3), "two");
    assert_eq!(client.respond().content, "one");
    assert_eq!(client.respond().content, "two");
    assert_eq!(client.respond().content, "one");
}

#[test]
fn sequence_mock_usage_is_zero() {
    let mut client = SequenceMockLlmClient::from_slice(&["only"]);
    let r = client.respond();
    assert_eq!(r.content, "only");
    assert_eq!(r.usage.prompt_tokens, 0);
    assert_eq!(r.usage.completion_tokens, 0);
    assert_eq!(client.respond().content, "only");
}

#[test]
fn sequence_mock_from_slice_answers_like_new() {
    let mut a = SequenceMockLlmClient::from_slice(&["x", "y", "z"]);
    let mut b = SequenceMockLlmClient::new(vec!["x".to_string(), "y".to_string(), "z".to_string()]);
    for _ in 0..7 {
        assert_eq!(a.respond().content, b.respond().content);
    }
}

#[test]
fn sequence_mock_cycle_repeats_after_full_round() {
    let mut client = SequenceMockLlmClient::from_slice(&["a", "b", "c"]);
    let first: Vec<String> = (0..3).map(|_| client.respond().content).collect();
    let second: Vec<String> = (0..3).map(|_| client.respond().content).collect();
    assert_eq!(first, vec!["a", "b", "c"]);
    assert_eq!(first, second);
}

struct VecMemory(Mutex<Vec<Message>>);

impl Memory for VecMemory {
    fn get(&self, limit: usize) -> Vec<Message> {
        let all = self.0.lock().unwrap();
        let start = all.len().saturating_sub(limit);
        all[start..].iter().map(|m| Message { role: m.role, content: m.content.clone(), timestamp: m.timestamp }).collect()
    }

    fn add(&self, message: Message) {
        self.0.lock().unwrap().push(message);
    }
}

#[test]
fn agent_with_system_prompt_and_memory() {
    let memory = Arc::new(VecMemory(Mutex::new(vec![Message::user("earlier"), Message::tool("t"), Message::assistant("reply")])));
    let agent: ChatAgent<MockLlmClient, VecMemory> =
        ChatAgent { llm: MockLlmClient::echo(), system_prompt: None, memory: None };
    let agent = agent.with_system_prompt("sys").with_memory(memory.clone());
    let req = agent.chat_request("now");
    let roles: Vec<MessageRole> = req.messages.iter().map(|m| m.role).collect();
    assert_eq!(roles, vec![MessageRole::System, MessageRole::User, MessageRole::Assistant, MessageRole::User]);
    assert_eq!(req.messages[3].content, "now");
    agent.remember_turn("now", "done");
    assert_eq!(memory.0.lock().unwrap().len(), 5);
}

#[test]
fn stream_item_maps_errors_and_records_done() {
    let memory = Arc::new(VecMemory(Mutex::new(vec![])));
    let agent: ChatAgent<MockLlmClient, VecMemory> =
        ChatAgent { llm: MockLlmClient::echo(), system_prompt: None, memory: Some(memory.clone()) };
    match agent.stream_item("q", ChatStreamEvent::Error("boom".to_string())) {
        Err(AgentError::ExecutionFailed(m)) => assert_eq!(m, "boom"),
        other => panic!("unexpected {:?}", other),
    }
    assert!(matches!(agent.stream_item("q", ChatStreamEvent::Token("x".to_string())), Ok(ChatStreamEvent::Token(_))));
    assert_eq!(memory.0.lock().unwrap().len(), 0);
    assert!(matches!(agent.stream_item("q", ChatStreamEvent::Done("x".to_string())), Ok(ChatStreamEvent::Done(_))));
    assert_eq!(memory.0.lock().unwrap().len(), 2);
}

#[test]
fn memory_messages_skip_tool_role() {
    let ms = vec![Message::system("s"), Message::tool("t"), Message::user("u")];
    let chat = messages_to_chat(&ms);
    assert_eq!(chat.len(), 2);
    assert_eq!(chat[0].role, MessageRole::System);
    assert_eq!(chat[1].content, "u");
    assert_eq!(Message::tool("x").role, Role::Tool);
}

#[test]
fn error_messages() {
    assert_eq!(ToolError::NotFound("x".to_string()).message(), "tool not found: x");
    assert_eq!(ToolError::ValidationFailed("x".to_string()).message(), "validation failed: x");
    assert_eq!(ToolError::ExecutionFailed("x".to_string()).message(), "execution failed: x");
    assert_eq!(ValidationError("bad".to_string()).message(), "validation failed: bad");
    assert!(matches!(ToolError::from(ValidationError("v".to_string())), ToolError::ValidationFailed(m) if m == "v"));
    assert_eq!(AgentError::ExecutionFailed("e".to_string()).message(), "execution failed: e");
    assert_eq!(ActorError::SendTimeout.message(), "send timeout");
    assert_eq!(ActorError::RequestFailed("r".to_string()).message(), "request failed: r");
    assert_eq!(StateError::MaxStepsExceeded(12).message(), "max steps exceeded: 12");
    assert_eq!(StateError::InvalidTransition("a".to_string()).message(), "invalid transition: a");
}

#[test]
fn finishing_a_turn_records_only_replies() {
    let memory = Arc::new(VecMemory(Mutex::new(vec![])));
    let agent: ChatAgent<MockLlmClient, VecMemory> =
        ChatAgent { llm: MockLlmClient::echo(), system_prompt: None, memory: Some(memory.clone()) };
    assert!(matches!(agent.finish_turn("q", Err("down".to_string())), Err(AgentError::ExecutionFailed(m)) if m == "down"));
    assert_eq!(memory.0.lock().unwrap().len(), 0);
    assert_eq!(agent.finish_turn("q", Ok("a".to_string())).unwrap(), "a");
    assert_eq!(memory.0.lock().unwrap().len(), 2);
}
