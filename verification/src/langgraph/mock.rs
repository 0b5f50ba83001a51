//! Mock LLM clients for tests and examples: no model is called.

use vstd::prelude::*;
use crate::text::byte_len;
use crate::langgraph::llm::{ChatMessage, ChatRequest, ChatResponse, ChatStreamEvent, MessageRole, Usage};

verus! {

/// `n`, saturated at `u32::MAX`.
pub open spec fn cap_u32(n: nat) -> u32 {
    if n <= u32::MAX {
        n as u32
    } else {
        u32::MAX
    }
}

/// The content of the last user message among `ms`.
pub open spec fn last_user_content(ms: Seq<ChatMessage>) -> Option<Seq<char>>
    decreases ms.len(),
{
    if ms.len() == 0 {
        None
    } else if ms.last().role == MessageRole::User {
        Some(ms.last().content@)
    } else {
        last_user_content(ms.drop_last())
    }
}

/// The sum, over the messages, of half the UTF-8 length of each content (rounded down).
pub open spec fn half_bytes_total(ms: Seq<ChatMessage>) -> nat
    decreases ms.len(),
{
    if ms.len() == 0 {
        0
    } else {
        half_bytes_total(ms.drop_last()) + byte_len(ms.last().content@) / 2
    }
}

/// The text of the `Token` events among `events`, concatenated in order.
pub open spec fn token_text(events: Seq<ChatStreamEvent>) -> Seq<char>
    decreases events.len(),
{
    if events.len() == 0 {
        Seq::empty()
    } else {
        token_text(events.drop_last()) + match events.last() {
            ChatStreamEvent::Token(t) => t@,
            _ => Seq::empty(),
        }
    }
}

/// Answer used when a request holds no user message.
pub open spec fn no_user_input() -> Seq<char> {
    "（无用户输入）"@
}

/// Mock client: answers a fixed sentence, or echoes the last user message.
#[derive(Debug)]
pub struct MockLlmClient {
    fixed_response: Option<String>,
}

impl MockLlmClient {
    /// The fixed answer, if this mock has one.
    pub closed spec fn fixed(self) -> Option<Seq<char>> {
        match self.fixed_response {
            Some(s) => Some(s@),
            None => None,
        }
    }

    /// The reply this mock gives to `messages`.
    pub open spec fn reply_to(self, messages: Seq<ChatMessage>) -> Seq<char> {
        match self.fixed() {
            Some(s) => s,
            None => match last_user_content(messages) {
                Some(c) => c,
                None => no_user_input(),
            },
        }
    }

    /// A mock that always answers `response`.
    pub fn with_fixed_response(response: &str) -> (r: MockLlmClient)
        ensures
            r.fixed() == Some(response@),
    {
        MockLlmClient { fixed_response: Some(String::from_str(response)) }
    }

    /// A mock that echoes the last user message.
    pub fn echo() -> (r: MockLlmClient)
        ensures
            r.fixed() is None,
    {
        MockLlmClient { fixed_response: None }
    }

    /// The default mock: echo.
    pub fn new() -> (r: MockLlmClient)
        ensures
            r.fixed() is None,
    {
        Self::echo()
    }

    /// The text of the reply to `messages`.
    fn reply_text(&self, messages: &Vec<ChatMessage>) -> (r: String)
        ensures
            r@ == self.reply_to(messages@),
    {
        match &self.fixed_response {
            Some(s) => s.clone(),
            None => {
                let mut i = messages.len();
                assert(messages@.take(i as int) =~= messages@);
                while i > 0
                    invariant
                        i <= messages@.len(),
                        self.fixed() is None,
                        self.reply_to(messages@) == match last_user_content(messages@) {
                            Some(c) => c,
                            None => no_user_input(),
                        },
                        last_user_content(messages@) == last_user_content(messages@.take(i as int)),
                    decreases i,
                {
                    assert(messages@.take(i as int).last() == messages@[i - 1]);
                    if messages[i - 1].role == MessageRole::User {
                        return messages[i - 1].content.clone();
                    }
                    assert(messages@.take(i as int).drop_last() =~= messages@.take(i - 1));
                    i -= 1;
                }
                proof {
                    reveal_strlit("（无用户输入）");
                }
                String::from_str("（无用户输入）")
            },
        }
    }

    /// Answers a chat request: the reply, with usage counted as half the
    /// UTF-8 length of the prompt contents and of the reply, saturated at `u32::MAX`.
    pub fn respond(&self, req: &ChatRequest) -> (r: ChatResponse)
        ensures
            r.content@ == self.reply_to(req.messages@),
            r.usage.prompt_tokens == cap_u32(half_bytes_total(req.messages@)),
            r.usage.completion_tokens == cap_u32(byte_len(r.content@) / 2),
    {
        let content = self.reply_text(&req.messages);
        let prompt_tokens = prompt_token_count(&req.messages);
        let half = content.as_str().len() / 2;
        let completion_tokens = if half >= 4294967295usize { u32::MAX } else { half as u32 };
        ChatResponse { content, usage: Usage { prompt_tokens, completion_tokens } }
    }

    /// Streams the reply to `req`: one token per character, then the full reply.
    pub fn stream_events(&self, req: &ChatRequest) -> (r: Vec<ChatStreamEvent>)
        ensures
            r@.len() == self.reply_to(req.messages@).len() + 1,
            forall|i: int| 0 <= i < r@.len() - 1 ==> ((#[trigger] r@[i]) matches ChatStreamEvent::Token(t)
                && t@ == seq![self.reply_to(req.messages@)[i]]),
            r@.last() matches ChatStreamEvent::Done(d) && d@ == self.reply_to(req.messages@),
            token_text(r@.drop_last()) == self.reply_to(req.messages@),
    {
        let content = self.reply_text(&req.messages);
        let n = content.as_str().unicode_len();
        let mut events: Vec<ChatStreamEvent> = Vec::new();
        let mut i: usize = 0;
        while i < n
            invariant
                n == content@.len(),
                i <= n,
                events@.len() == i,
                forall|k: int| 0 <= k < i ==> ((#[trigger] events@[k]) matches ChatStreamEvent::Token(t)
                    && t@ == seq![content@[k]]),
                token_text(events@) == content@.take(i as int),
            decreases n - i,
        {
            let piece = content.as_str().substring_char(i, i + 1);
            assert(piece@ =~= seq![content@[i as int]]);
            let ghost before = events@;
            let token = ChatStreamEvent::Token(String::from_str(piece));
            let ghost tok = token;
            events.push(token);
            assert(events@.drop_last() =~= before);
            assert(content@.take(i + 1) =~= content@.take(i as int) + seq![content@[i as int]]);
            i += 1;
        }
        let ghost tokens = events@;
        assert(content@.take(n as int) =~= content@);
        events.push(ChatStreamEvent::Done(content));
        assert(events@.drop_last() =~= tokens);
        events
    }
}

impl Default for MockLlmClient {
    fn default() -> (r: MockLlmClient)
        ensures
            r.fixed() is None,
    {
        Self::new()
    }
}

/// Half the UTF-8 length of every message content, summed and saturated at `u32::MAX`.
fn prompt_token_count(messages: &Vec<ChatMessage>) -> (r: u32)
    ensures
        r == cap_u32(half_bytes_total(messages@)),
{
    let mut total: u32 = 0;
    let mut i: usize = 0;
    while i < messages.len()
        invariant
            i <= messages@.len(),
            total == cap_u32(half_bytes_total(messages@.take(i as int))),
        decreases messages@.len() - i,
    {
        let half = messages[i].content.as_str().len() / 2;
        assert(messages@.take(i + 1).drop_last() =~= messages@.take(i as int));
        assert(messages@.take(i + 1).last() == messages@[i as int]);
        assert(half == byte_len(messages@[i as int].content@) / 2);
        if half >= (u32::MAX - total) as usize {
            total = u32::MAX;
        } else {
            total = total + half as u32;
        }
        i += 1;
    }
    assert(messages@.take(messages@.len() as int) =~= messages@);
    total
}

/// What [`last_user_content`] finds: the content of a user message after which no
/// message is a user message, or, when there is none, that no message is.
pub proof fn lemma_last_user_content(ms: Seq<ChatMessage>)
    ensures
        match last_user_content(ms) {
            Some(c) => exists|i: int| 0 <= i < ms.len() && #[trigger] ms[i].role == MessageRole::User
                && ms[i].content@ == c
                && forall|j: int| i < j < ms.len() ==> ms[j].role != MessageRole::User,
            None => forall|j: int| 0 <= j < ms.len() ==> ms[j].role != MessageRole::User,
        },
    decreases ms.len(),
{
    if ms.len() > 0 {
        let n = ms.len() - 1;
        if ms.last().role == MessageRole::User {
            assert(ms[n].role == MessageRole::User);
        } else {
            let init = ms.drop_last();
            lemma_last_user_content(init);
            match last_user_content(init) {
                Some(c) => {
                    let i = choose|i: int| 0 <= i < init.len() && #[trigger] init[i].role == MessageRole::User
                        && init[i].content@ == c
                        && forall|j: int| i < j < init.len() ==> init[j].role != MessageRole::User;
                    assert(ms[i] == init[i]);
                    assert forall|j: int| i < j < ms.len() implies ms[j].role != MessageRole::User by {
                        if j < n {
                            assert(ms[j] == init[j]);
                        }
                    }
                },
                None => {
                    assert forall|j: int| 0 <= j < ms.len() implies ms[j].role != MessageRole::User by {
                        if j < n {
                            assert(ms[j] == init[j]);
                        }
                    }
                },
            }
        }
    }
}

/// An echo mock answers with the last user message: the content of a user message
/// that no later user message follows; with no user message at all, the fixed
/// "no user input" answer.
pub proof fn echo_answers_last_user_message(m: MockLlmClient, ms: Seq<ChatMessage>)
    requires
        m.fixed() is None,
    ensures
        (exists|i: int| 0 <= i < ms.len() && #[trigger] ms[i].role == MessageRole::User) ==> exists|i: int|
            0 <= i < ms.len() && #[trigger] ms[i].role == MessageRole::User && m.reply_to(ms) == ms[i].content@
            && forall|j: int| i < j < ms.len() ==> ms[j].role != MessageRole::User,
        (forall|j: int| 0 <= j < ms.len() ==> #[trigger] ms[j].role != MessageRole::User) ==> m.reply_to(ms)
            == no_user_input(),
{
    lemma_last_user_content(ms);
}

/// A mock with a fixed answer gives it whatever the messages.
pub proof fn fixed_mock_ignores_messages(m: MockLlmClient, ms: Seq<ChatMessage>, text: Seq<char>)
    requires
        m.fixed() == Some(text),
    ensures
        m.reply_to(ms) == text,
{
}

/// Mock that answers its preset responses in turn, cycling.
#[derive(Debug)]
pub struct SequenceMockLlmClient {
    responses: Vec<String>,
    calls: usize,
}

impl SequenceMockLlmClient {
    /// The preset responses, in order.
    pub closed spec fn responses(self) -> Seq<Seq<char>> {
        self.responses@.map_values(|s: String| s@)
    }

    /// How many calls have been answered so far (wrapping at `usize::MAX`).
    pub closed spec fn calls(self) -> usize {
        self.calls
    }

    /// A mock answering `responses[i % responses.len()]` at its `i`-th call.
    pub fn new(responses: Vec<String>) -> (r: SequenceMockLlmClient)
        ensures
            r.responses() == responses@.map_values(|s: String| s@),
            r.calls() == 0,
    {
        SequenceMockLlmClient { responses, calls: 0 }
    }

    /// Builds the mock from string slices.
    pub fn from_slice(responses: &[&str]) -> (r: SequenceMockLlmClient)
        ensures
            r.responses() == responses@.map_values(|s: &str| s@),
            r.calls() == 0,
    {
        let mut v: Vec<String> = Vec::new();
        let mut i: usize = 0;
        while i < responses.len()
            invariant
                i <= responses@.len(),
                v@.len() == i,
                forall|k: int| 0 <= k < i ==> #[trigger] v@[k]@ == responses@[k]@,
            decreases responses@.len() - i,
        {
            v.push(String::from_str(responses[i]));
            i += 1;
        }
        assert(v@.map_values(|s: String| s@) =~= responses@.map_values(|s: &str| s@));
        Self::new(v)
    }

    /// The number of preset responses.
    pub fn response_count(&self) -> (r: usize)
        ensures
            r == self.responses().len(),
    {
        self.responses.len()
    }

    /// The preset response for call number `call`: they are taken in turn, cycling.
    pub open spec fn response_for(self, call: usize) -> Seq<char> {
        self.responses()[(call as int) % (self.responses().len() as int)]
    }

    /// The response given at call number `call`.
    pub fn response_at(&self, call: usize) -> (r: String)
        requires
            self.responses().len() > 0,
        ensures
            r@ == self.response_for(call),
    {
        let k = call % self.responses.len();
        self.responses[k].clone()
    }

    /// Answers the next call: the preset response for this call's number, with zero usage.
    /// The counter then moves on by one, wrapping to 0 after `usize::MAX`.
    pub fn respond(&mut self) -> (r: ChatResponse)
        requires
            old(self).responses().len() > 0,
        ensures
            r.content@ == old(self).response_for(old(self).calls()),
            r.usage.prompt_tokens == 0,
            r.usage.completion_tokens == 0,
            final(self).responses() == old(self).responses(),
            final(self).calls() == next_call_number(old(self).calls()),
    {
        let content = self.response_at(self.calls);
        self.calls = if self.calls == usize::MAX { 0 } else { self.calls + 1 };
        ChatResponse { content, usage: Usage { prompt_tokens: 0, completion_tokens: 0 } }
    }
}

/// The call counter after one more call: one more, wrapping to 0 after `usize::MAX`.
pub open spec fn next_call_number(calls: usize) -> usize {
    if calls == usize::MAX {
        0
    } else {
        (calls + 1) as usize
    }
}

/// The answers cycle: call number `call + n`, with `n` the number of preset responses,
/// gets the same response as call number `call`.
pub proof fn lemma_responses_cycle(m: SequenceMockLlmClient, call: usize)
    requires
        m.responses().len() > 0,
        call + m.responses().len() <= usize::MAX,
    ensures
        m.response_for((call + m.responses().len()) as usize) == m.response_for(call),
{
    let n = m.responses().len() as int;
    vstd::arithmetic::div_mod::lemma_mod_add_multiples_vanish(call as int, n);
    assert(((call + m.responses().len()) as usize) as int == n + call as int);
}

/// Two mocks with the same preset responses and the same call counter answer every call
/// alike and stay alike after it: a mock built by `from_slice` behaves as one built by `new`
/// from the same strings.
pub proof fn lemma_same_answers(a: SequenceMockLlmClient, b: SequenceMockLlmClient)
    requires
        a.responses() == b.responses(),
        a.calls() == b.calls(),
    ensures
        forall|call: usize| a.response_for(call) == b.response_for(call),
        a.response_for(a.calls()) == b.response_for(b.calls()),
        next_call_number(a.calls()) == next_call_number(b.calls()),
{
}

} // verus!
