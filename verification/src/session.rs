//! Session messages as the server lists them, and the choice of the
//! assistant's reply among them.

use vstd::prelude::*;
use crate::json::{Json, JsonView};
use crate::text::str_eq;

verus! {

/// A chat session.
#[derive(Debug, Clone)]
pub struct Session {
    /// Session id.
    pub id: String,
}

/// Who wrote a message.
#[derive(Debug, Clone)]
pub struct MessageInfo {
    /// The author's role, e.g. `"user"` or `"assistant"`.
    pub role: String,
}

/// One part of a message: text, tool call or result, reasoning, image, ...
#[derive(Debug)]
pub struct Part {
    /// Part type, e.g. `"text"`, `"tool"`, `"reasoning"`.
    pub part_type: String,
    pub text: Option<String>,
    pub tool_name: Option<String>,
    pub tool_call_id: Option<String>,
    pub is_error: Option<bool>,
    pub finished: Option<bool>,
    pub reasoning: Option<String>,
    pub image_url: Option<String>,
    pub finish_reason: Option<String>,
    pub tool_output: Option<Json>,
}

/// A listed message: its info and its parts.
#[derive(Debug)]
pub struct MessageListItem {
    pub info: MessageInfo,
    pub parts: Vec<Part>,
}

/// The characters of an optional string.
pub open spec fn opt_view(o: Option<String>) -> Option<Seq<char>> {
    match o {
        Some(s) => Some(s@),
        None => None,
    }
}

/// A copy of an optional string.
fn copy_opt(o: &Option<String>) -> (r: Option<String>)
    ensures
        opt_view(r) == opt_view(*o),
{
    match o {
        Some(s) => Some(s.clone()),
        None => None,
    }
}

/// What a part holds: type, strings as characters, flags, tool output as denoted.
pub struct PartView {
    pub part_type: Seq<char>,
    pub text: Option<Seq<char>>,
    pub tool_name: Option<Seq<char>>,
    pub tool_call_id: Option<Seq<char>>,
    pub is_error: Option<bool>,
    pub finished: Option<bool>,
    pub reasoning: Option<Seq<char>>,
    pub image_url: Option<Seq<char>>,
    pub finish_reason: Option<Seq<char>>,
    pub tool_output: Option<JsonView>,
}

impl Part {
    /// What this part holds.
    pub open spec fn view(self) -> PartView {
        PartView {
            part_type: self.part_type@,
            text: opt_view(self.text),
            tool_name: opt_view(self.tool_name),
            tool_call_id: opt_view(self.tool_call_id),
            is_error: self.is_error,
            finished: self.finished,
            reasoning: opt_view(self.reasoning),
            image_url: opt_view(self.image_url),
            finish_reason: opt_view(self.finish_reason),
            tool_output: match self.tool_output {
                Some(j) => Some(j.deep()),
                None => None,
            },
        }
    }

    /// A text part holding `content`, with no other field set.
    pub fn text(content: &str) -> (r: Part)
        ensures
            r.part_type@ == "text"@,
            r.text matches Some(t) && t@ == content@,
            r.tool_name is None && r.tool_call_id is None && r.is_error is None && r.finished is None,
            r.reasoning is None && r.image_url is None && r.finish_reason is None && r.tool_output is None,
    {
        Part {
            part_type: String::from_str("text"),
            text: Some(String::from_str(content)),
            tool_name: None,
            tool_call_id: None,
            is_error: None,
            finished: None,
            reasoning: None,
            image_url: None,
            finish_reason: None,
            tool_output: None,
        }
    }

    /// A copy of this part.
    pub fn duplicate(&self) -> (r: Part)
        ensures
            r.view() == self.view(),
    {
        Part {
            part_type: self.part_type.clone(),
            text: copy_opt(&self.text),
            tool_name: copy_opt(&self.tool_name),
            tool_call_id: copy_opt(&self.tool_call_id),
            is_error: self.is_error,
            finished: self.finished,
            reasoning: copy_opt(&self.reasoning),
            image_url: copy_opt(&self.image_url),
            finish_reason: copy_opt(&self.finish_reason),
            tool_output: match &self.tool_output {
                Some(j) => Some(j.duplicate()),
                None => None,
            },
        }
    }
}

/// The text of the `"text"` parts among `parts`, concatenated in order.
pub open spec fn text_of_parts(parts: Seq<Part>) -> Seq<char>
    decreases parts.len(),
{
    if parts.len() == 0 {
        Seq::empty()
    } else {
        let p = parts.last();
        text_of_parts(parts.drop_last()) + if p.part_type@ == "text"@ {
            match p.text {
                Some(t) => t@,
                None => Seq::empty(),
            }
        } else {
            Seq::empty()
        }
    }
}

/// ASCII lowercase of one character.
pub open spec fn ascii_lower(c: char) -> char {
    if 'A' <= c && c <= 'Z' {
        ((c as u32) + 32) as char
    } else {
        c
    }
}

/// `a` and `b` are equal up to ASCII case (`str::eq_ignore_ascii_case`).
pub open spec fn eq_ignore_ascii_case(a: Seq<char>, b: Seq<char>) -> bool {
    a.len() == b.len() && forall|i: int| 0 <= i < a.len() ==> ascii_lower(#[trigger] a[i]) == ascii_lower(b[i])
}

/// ASCII lowercase of one character.
fn lower_char(c: char) -> (r: char)
    ensures
        r == ascii_lower(c),
{
    if 'A' <= c && c <= 'Z' {
        let code = (c as u32) + 32;
        assert(code as char == ((c as u32) + 32) as char);
        char_from_code(code)
    } else {
        c
    }
}

/// The character with an ASCII letter's code.
fn char_from_code(code: u32) -> (r: char)
    requires
        97 <= code <= 122,
    ensures
        r == code as char,
{
    let b = code as u8;
    b as char
}

/// Whether `a` equals `b` up to ASCII case.
pub fn equal_ignoring_ascii_case(a: &str, b: &str) -> (r: bool)
    ensures
        r == eq_ignore_ascii_case(a@, b@),
{
    let n = a.unicode_len();
    if n != b.unicode_len() {
        return false;
    }
    let mut i: usize = 0;
    while i < n
        invariant
            n == a@.len(),
            n == b@.len(),
            i <= n,
            forall|k: int| 0 <= k < i ==> ascii_lower(#[trigger] a@[k]) == ascii_lower(b@[k]),
        decreases n - i,
    {
        if lower_char(a.get_char(i)) != lower_char(b.get_char(i)) {
            return false;
        }
        i += 1;
    }
    true
}

impl MessageListItem {
    /// The text of the message: its `"text"` parts' text, concatenated in order.
    pub open spec fn text_view(self) -> Seq<char> {
        text_of_parts(self.parts@)
    }

    /// The message was written by the assistant (role `assistant`, any ASCII case).
    pub open spec fn by_assistant(self) -> bool {
        eq_ignore_ascii_case(self.info.role@, "assistant"@)
    }

    /// The message's parts, as they hold.
    pub open spec fn parts_view(self) -> Seq<PartView> {
        self.parts@.map_values(|p: Part| p.view())
    }

    /// The message's text: its `"text"` parts' text, concatenated in order.
    pub fn text_content(&self) -> (r: String)
        ensures
            r@ == self.text_view(),
    {
        let mut out = String::new();
        let mut i: usize = 0;
        while i < self.parts.len()
            invariant
                i <= self.parts@.len(),
                out@ == text_of_parts(self.parts@.take(i as int)),
            decreases self.parts@.len() - i,
        {
            let p = &self.parts[i];
            assert(self.parts@.take(i + 1).drop_last() =~= self.parts@.take(i as int));
            assert(self.parts@.take(i + 1).last() == self.parts@[i as int]);
            if str_eq(p.part_type.as_str(), "text") {
                match &p.text {
                    Some(t) => out.append(t.as_str()),
                    None => {
                        assert(out@ =~= out@ + Seq::<char>::empty());
                    },
                }
            } else {
                assert(out@ =~= out@ + Seq::<char>::empty());
            }
            i += 1;
        }
        assert(self.parts@.take(self.parts@.len() as int) =~= self.parts@);
        out
    }

    /// A copy of this message.
    pub fn duplicate(&self) -> (r: MessageListItem)
        ensures
            r.info.role@ == self.info.role@,
            r.parts_view() == self.parts_view(),
            r.text_view() == self.text_view(),
    {
        let mut parts: Vec<Part> = Vec::new();
        let mut i: usize = 0;
        while i < self.parts.len()
            invariant
                i <= self.parts@.len(),
                parts@.len() == i,
                forall|k: int| 0 <= k < i ==> (#[trigger] parts@[k]).view() == self.parts@[k].view(),
            decreases self.parts@.len() - i,
        {
            parts.push(self.parts[i].duplicate());
            i += 1;
        }
        let r = MessageListItem { info: MessageInfo { role: self.info.role.clone() }, parts };
        assert(r.parts_view() =~= self.parts_view());
        assert(r.text_view() == self.text_view()) by {
            lemma_text_of_parts_by_view(r.parts@, self.parts@);
        }
        r
    }
}

/// Messages whose parts hold the same have the same text.
proof fn lemma_text_of_parts_by_view(a: Seq<Part>, b: Seq<Part>)
    requires
        a.len() == b.len(),
        forall|k: int| 0 <= k < a.len() ==> (#[trigger] a[k]).view() == b[k].view(),
    ensures
        text_of_parts(a) == text_of_parts(b),
    decreases a.len(),
{
    if a.len() > 0 {
        assert(a.last().view() == b.last().view());
        lemma_text_of_parts_by_view(a.drop_last(), b.drop_last());
    }
}

/// The index of the last assistant message among `messages`.
pub open spec fn last_assistant_index(messages: Seq<MessageListItem>) -> Option<int>
    decreases messages.len(),
{
    if messages.len() == 0 {
        None
    } else if messages.last().by_assistant() {
        Some(messages.len() - 1)
    } else {
        last_assistant_index(messages.drop_last())
    }
}

/// The reply to return: the last assistant message, when it has text or any part.
pub open spec fn reply_index(messages: Seq<MessageListItem>) -> Option<int> {
    match last_assistant_index(messages) {
        Some(i) => if messages[i].text_view().len() > 0 || messages[i].parts@.len() > 0 {
            Some(i)
        } else {
            None
        },
        None => None,
    }
}

/// The reply is written by the assistant, no later message is, and it has
/// text or at least one part; when the last assistant message has neither,
/// there is no reply, whatever earlier messages hold.
pub proof fn reply_is_last_assistant_message(messages: Seq<MessageListItem>)
    ensures
        match reply_index(messages) {
            Some(i) => 0 <= i < messages.len() && messages[i].by_assistant()
                && (forall|j: int| i < j < messages.len() ==> !(#[trigger] messages[j]).by_assistant())
                && messages[i].parts@.len() > 0,
            None => match last_assistant_index(messages) {
                Some(i) => messages[i].parts@.len() == 0,
                None => forall|j: int| 0 <= j < messages.len() ==> !(#[trigger] messages[j]).by_assistant(),
            },
        },
    decreases messages.len(),
{
    lemma_last_assistant_index(messages);
    match last_assistant_index(messages) {
        Some(i) => {
            if messages[i].parts@.len() == 0 {
                lemma_no_parts_no_text(messages[i].parts@);
            }
        },
        None => {},
    }
}

/// What [`last_assistant_index`] finds.
proof fn lemma_last_assistant_index(messages: Seq<MessageListItem>)
    ensures
        match last_assistant_index(messages) {
            Some(i) => 0 <= i < messages.len() && messages[i].by_assistant()
                && forall|j: int| i < j < messages.len() ==> !(#[trigger] messages[j]).by_assistant(),
            None => forall|j: int| 0 <= j < messages.len() ==> !(#[trigger] messages[j]).by_assistant(),
        },
    decreases messages.len(),
{
    if messages.len() > 0 && !messages.last().by_assistant() {
        let init = messages.drop_last();
        lemma_last_assistant_index(init);
        assert forall|j: int| 0 <= j < init.len() implies #[trigger] messages[j] == init[j] by {}
    }
}

/// Parts that are none hold no text.
proof fn lemma_no_parts_no_text(parts: Seq<Part>)
    requires
        parts.len() == 0,
    ensures
        text_of_parts(parts).len() == 0,
{
}

/// The last assistant message, when it has content (text or any part); a copy.
pub fn fetch_last_assistant_message(messages: &[MessageListItem]) -> (r: Option<MessageListItem>)
    ensures
        match reply_index(messages@) {
            Some(i) => r matches Some(m) && m.info.role@ == messages@[i].info.role@
                && m.parts_view() == messages@[i].parts_view(),
            None => r is None,
        },
{
    let mut i = messages.len();
    assert(messages@.take(i as int) =~= messages@);
    while i > 0
        invariant
            i <= messages@.len(),
            last_assistant_index(messages@) == last_assistant_index(messages@.take(i as int)),
        decreases i,
    {
        let m = &messages[i - 1];
        assert(messages@.take(i as int).last() == messages@[i - 1]);
        assert(messages@.take(i as int).drop_last() =~= messages@.take(i - 1));
        if equal_ignoring_ascii_case(m.info.role.as_str(), "assistant") {
            let text = m.text_content();
            if !text.as_str().is_empty() || m.parts.len() > 0 {
                return Some(m.duplicate());
            }
            return None;
        }
        i -= 1;
    }
    None
}

} // verus!
