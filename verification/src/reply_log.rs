//! What is reported of an assistant's reply once it has arrived: a summary of
//! each part and a preview of the reply's text. The caller writes these to
//! its log.

use vstd::prelude::*;
use crate::session::{opt_view, MessageListItem, Part};
use crate::text::{byte_len, lemma_bytes_at_least_chars, str_eq, take_chars};

verus! {

/// Longest preview of a part's text or reasoning, in characters.
pub const LOG_PREVIEW_LEN: usize = 500;

/// Longest preview of a reply's whole text, in characters.
pub const LOG_REPLY_TEXT_PREVIEW_LEN: usize = 2000;

/// The start of a text and whether the text goes on past it.
#[derive(Debug)]
pub struct Preview {
    /// The first characters of the text.
    pub text: String,
    /// The text is longer, in UTF-8 bytes, than the preview limit.
    pub truncated: bool,
}

/// The first `n` characters of `s` (all of `s` when shorter).
pub open spec fn head(s: Seq<char>, n: nat) -> Seq<char> {
    if n <= s.len() {
        s.take(n as int)
    } else {
        s
    }
}

/// `p` previews `s` at limit `n`: its first `n` characters, and whether `s`
/// takes more than `n` bytes.
pub open spec fn previews(p: Preview, s: Seq<char>, n: nat) -> bool {
    p.text@ == head(s, n) && p.truncated == (byte_len(s) > n)
}

/// A preview is the start of its text, at most `n` characters long, and
/// when it is not flagged as truncated it is the whole text (for a text whose
/// UTF-8 length fits in memory, as every string's does).
pub proof fn preview_is_start_of_text(p: Preview, s: Seq<char>, n: nat)
    requires
        previews(p, s, n),
        vstd::utf8::encode_utf8(s).len() <= usize::MAX,
    ensures
        p.text@ == s.take(p.text@.len() as int),
        p.text@.len() <= n,
        !p.truncated ==> p.text@ == s,
{
    lemma_bytes_at_least_chars(s);
    if n > s.len() {
        assert(s.take(s.len() as int) =~= s);
    }
}

/// The preview of `s` at limit `n`.
pub fn preview(s: &str, n: usize) -> (r: Preview)
    ensures
        previews(r, s@, n as nat),
{
    let text = take_chars(s, n);
    proof {
        if n as int <= s@.len() {
        } else {
            assert(s@.take(s@.len() as int) =~= s@);
        }
    }
    Preview { text, truncated: s.len() > n }
}

/// What is reported of one part of a reply, by its type.
#[derive(Debug)]
pub enum PartLog {
    /// A `tool` or `tool_call` part.
    ToolCall { tool_name: Option<String>, finished: Option<bool> },
    /// A `tool_result` part.
    ToolResult { tool_name: Option<String>, tool_call_id: Option<String>, is_error: Option<bool> },
    /// A `reasoning` part, with a preview of its reasoning when that is non-empty.
    Reasoning { preview: Option<Preview> },
    /// An `image` or `image_url` part.
    Image { image_url: Option<String> },
    /// A `binary` part.
    Binary,
    /// A `finish` part.
    Finish { finish_reason: Option<String> },
    /// Any other part, with a preview of its text when that is non-empty.
    Other { part_type: String, preview: Option<Preview> },
}

/// `r` is the optional preview, at [`LOG_PREVIEW_LEN`], of `s` when present and non-empty.
pub open spec fn previews_filled(r: Option<Preview>, s: Option<Seq<char>>) -> bool {
    match s {
        Some(t) => if t.len() > 0 {
            r matches Some(p) && previews(p, t, LOG_PREVIEW_LEN as nat)
        } else {
            r is None
        },
        None => r is None,
    }
}

/// The preview of an optional string, when present and non-empty.
fn preview_filled(s: &Option<String>) -> (r: Option<Preview>)
    ensures
        previews_filled(r, opt_view(*s)),
{
    match s {
        Some(t) => if t.as_str().is_empty() {
            None
        } else {
            Some(preview(t.as_str(), LOG_PREVIEW_LEN))
        },
        None => None,
    }
}

/// A copy of an optional string.
fn copy(s: &Option<String>) -> (r: Option<String>)
    ensures
        opt_view(r) == opt_view(*s),
{
    match s {
        Some(t) => Some(t.clone()),
        None => None,
    }
}

/// `r` is what is reported of `part`.
///
/// By its type: `tool` and `tool_call` report the tool name and whether it
/// finished; `tool_result` the tool name, call id and error flag; `reasoning`
/// a preview of its reasoning; `image` and `image_url` the image URL;
/// `binary` nothing more; `finish` the finish reason; any other type its type
/// and a preview of its text.
pub open spec fn reports_part(part: Part, r: PartLog) -> bool {
    let t = part.part_type@;
    if t == "tool"@ || t == "tool_call"@ {
        r matches PartLog::ToolCall { tool_name, finished }
            && opt_view(tool_name) == opt_view(part.tool_name) && finished == part.finished
    } else if t == "tool_result"@ {
        r matches PartLog::ToolResult { tool_name, tool_call_id, is_error }
            && opt_view(tool_name) == opt_view(part.tool_name)
            && opt_view(tool_call_id) == opt_view(part.tool_call_id) && is_error == part.is_error
    } else if t == "reasoning"@ {
        r matches PartLog::Reasoning { preview } && previews_filled(preview, opt_view(part.reasoning))
    } else if t == "image"@ || t == "image_url"@ {
        r matches PartLog::Image { image_url } && opt_view(image_url) == opt_view(part.image_url)
    } else if t == "binary"@ {
        r is Binary
    } else if t == "finish"@ {
        r matches PartLog::Finish { finish_reason }
            && opt_view(finish_reason) == opt_view(part.finish_reason)
    } else {
        r matches PartLog::Other { part_type, preview } && part_type@ == t
            && previews_filled(preview, opt_view(part.text))
    }
}

/// What is reported of `part` (see [`reports_part`]).
pub fn part_log(part: &Part) -> (r: PartLog)
    ensures
        reports_part(*part, r),
{
    let t = part.part_type.as_str();
    if str_eq(t, "tool") || str_eq(t, "tool_call") {
        PartLog::ToolCall { tool_name: copy(&part.tool_name), finished: part.finished }
    } else if str_eq(t, "tool_result") {
        PartLog::ToolResult {
            tool_name: copy(&part.tool_name),
            tool_call_id: copy(&part.tool_call_id),
            is_error: part.is_error,
        }
    } else if str_eq(t, "reasoning") {
        PartLog::Reasoning { preview: preview_filled(&part.reasoning) }
    } else if str_eq(t, "image") || str_eq(t, "image_url") {
        PartLog::Image { image_url: copy(&part.image_url) }
    } else if str_eq(t, "binary") {
        PartLog::Binary
    } else if str_eq(t, "finish") {
        PartLog::Finish { finish_reason: copy(&part.finish_reason) }
    } else {
        PartLog::Other { part_type: part.part_type.clone(), preview: preview_filled(&part.text) }
    }
}

/// What is reported of a whole reply.
#[derive(Debug)]
pub struct ReplyLog {
    /// Number of parts.
    pub parts_count: usize,
    /// Length of the reply's text, in UTF-8 bytes.
    pub text_len: usize,
    /// Preview of the reply's text, at [`LOG_REPLY_TEXT_PREVIEW_LEN`]; `None` when it has no text.
    pub text_preview: Option<Preview>,
    /// What is reported of each part, in order.
    pub parts: Vec<PartLog>,
}

/// What is reported of `reply`: its part count, the length and a preview of
/// its text (see [`MessageListItem::text_content`]), and each part's report.
pub fn reply_log(reply: &MessageListItem) -> (r: ReplyLog)
    ensures
        r.parts_count == reply.parts@.len(),
        r.text_len == byte_len(reply.text_view()),
        if reply.text_view().len() > 0 {
            r.text_preview matches Some(p) && previews(p, reply.text_view(), LOG_REPLY_TEXT_PREVIEW_LEN as nat)
        } else {
            r.text_preview is None
        },
        r.parts@.len() == reply.parts@.len(),
        forall|i: int| 0 <= i < r.parts@.len() ==> reports_part(reply.parts@[i], #[trigger] r.parts@[i]),
{
    let text = reply.text_content();
    let text_len = text.as_str().len();
    let text_preview = if text.as_str().is_empty() {
        None
    } else {
        Some(preview(text.as_str(), LOG_REPLY_TEXT_PREVIEW_LEN))
    };
    let mut parts: Vec<PartLog> = Vec::new();
    let mut i: usize = 0;
    while i < reply.parts.len()
        invariant
            i <= reply.parts@.len(),
            parts@.len() == i,
            forall|k: int| 0 <= k < i ==> reports_part(reply.parts@[k], #[trigger] parts@[k]),
        decreases reply.parts@.len() - i,
    {
        parts.push(part_log(&reply.parts[i]));
        i += 1;
    }
    ReplyLog { parts_count: reply.parts.len(), text_len, text_preview, parts }
}

} // verus!
