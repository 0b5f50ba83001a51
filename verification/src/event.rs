//! Reading the server's event stream: which events end an assistant turn,
//! which carry new text for a session, and what a subscriber does with each
//! event it receives.

use vstd::prelude::*;
use crate::json::{Json, deref_opt, either, opt_field, opt_text};
use crate::text::{contains_str, has_infix, str_eq};

verus! {

/// `Some(s)` when `s` is present and non-empty.
pub open spec fn nonempty(o: Option<Seq<char>>) -> Option<Seq<char>> {
    match o {
        Some(s) => if s.len() > 0 { Some(s) } else { None },
        None => None,
    }
}

/// The characters of `o`, or the empty string when absent.
pub open spec fn or_empty(o: Option<Seq<char>>) -> Seq<char> {
    match o {
        Some(s) => s,
        None => Seq::empty(),
    }
}

/// A named session that is not `sid`.
pub open spec fn mismatch(named: Option<Seq<char>>, sid: Seq<char>) -> bool {
    match named {
        Some(s) => s != sid,
        None => false,
    }
}

/// The session an event names: the first of `sessionID`, `sessionId`,
/// `properties.sessionID`, `properties.sessionId` that is present, when it is a string.
pub open spec fn event_session(v: Json) -> Option<Seq<char>> {
    let props = v.field("properties"@);
    opt_text(
        either(
            v.field("sessionID"@),
            either(
                v.field("sessionId"@),
                either(opt_field(props, "sessionID"@), opt_field(props, "sessionId"@)),
            ),
        ),
    )
}

/// The event's `type`, or the empty string when it has no string `type`.
pub open spec fn event_type(v: Json) -> Seq<char> {
    or_empty(opt_text(v.field("type"@)))
}

/// The event's `properties` when they form an object.
pub open spec fn properties_object(v: Json) -> Option<Json> {
    match v.field("properties"@) {
        Some(p) => if p.is_obj() { Some(p) } else { None },
        None => None,
    }
}

/// The session named by `properties.part` (`sessionID`, else `sessionId`), when a string.
pub open spec fn part_session(p: Json) -> Option<Seq<char>> {
    let part = p.field("part"@);
    opt_text(either(opt_field(part, "sessionID"@), opt_field(part, "sessionId"@)))
}

/// The event ends the assistant's turn for session `sid`.
///
/// An event naming another session never does. Otherwise, in order:
/// `session.idle`; `session.status` whose `status.type` is `idle`;
/// `message.part.updated` whose `part.type` is `step-finish` or `finish`;
/// `message.updated` (with object properties) ends the turn when its `info`
/// has a `finish` and names no other session, and does not when it has no
/// `info`; then the legacy forms: a type containing `finish` or `complete`,
/// or equal to `done`; properties whose `partType` (else `type`) is `finish`
/// or `step-finish`; properties with `finishReason` (else `finish_reason`).
pub open spec fn is_completion(v: Json, sid: Seq<char>) -> bool {
    let ty = event_type(v);
    let props = properties_object(v);
    let info = opt_field(props, "info"@);
    if mismatch(event_session(v), sid) {
        false
    } else if ty == "session.idle"@ {
        true
    } else if ty == "session.status"@ && props is Some && or_empty(
        opt_text(opt_field(opt_field(props, "status"@), "type"@)),
    ) == "idle"@ {
        true
    } else if ty == "message.part.updated"@ && props is Some && ({
        let pt = or_empty(opt_text(opt_field(opt_field(props, "part"@), "type"@)));
        pt == "step-finish"@ || pt == "finish"@
    }) {
        true
    } else if ty == "message.updated"@ && props is Some && info is None {
        false
    } else if ty == "message.updated"@ && props is Some && opt_field(info, "finish"@) is Some {
        !mismatch(opt_text(either(opt_field(info, "sessionID"@), opt_field(info, "sessionId"@))), sid)
    } else if has_infix(ty, "finish"@) || has_infix(ty, "complete"@) || ty == "done"@ {
        true
    } else if props is Some && ({
        let pt = or_empty(opt_text(either(opt_field(props, "partType"@), opt_field(props, "type"@))));
        pt == "finish"@ || pt == "step-finish"@
    }) {
        true
    } else {
        props is Some && either(opt_field(props, "finishReason"@), opt_field(props, "finish_reason"@)) is Some
    }
}

/// The new text an event carries for session `sid`.
///
/// None when the event, or its `properties.part`, names another session.
/// With object properties, the first non-empty string among
/// `properties.delta`, `properties.part.text`, `properties.text` and
/// `properties.content`; failing that, the first present string among
/// `properties.text`, `text` and `properties.content`, when non-empty.
pub open spec fn text_delta(v: Json, sid: Seq<char>) -> Option<Seq<char>> {
    let props = properties_object(v);
    let raw = v.field("properties"@);
    let fallback = nonempty(
        either(
            opt_text(opt_field(raw, "text"@)),
            either(opt_text(v.field("text"@)), opt_text(opt_field(raw, "content"@))),
        ),
    );
    if mismatch(event_session(v), sid) {
        None
    } else {
        match props {
            Some(p) => {
                if mismatch(part_session(p), sid) {
                    None
                } else if nonempty(opt_text(p.field("delta"@))) is Some {
                    nonempty(opt_text(p.field("delta"@)))
                } else if nonempty(opt_text(opt_field(p.field("part"@), "text"@))) is Some {
                    nonempty(opt_text(opt_field(p.field("part"@), "text"@)))
                } else if nonempty(opt_text(p.field("text"@))) is Some {
                    nonempty(opt_text(p.field("text"@)))
                } else if nonempty(opt_text(p.field("content"@))) is Some {
                    nonempty(opt_text(p.field("content"@)))
                } else {
                    fallback
                }
            },
            None => fallback,
        }
    }
}

/// Member `key` of an optional value (`and_then(|v| v.get(key))`).
fn field_of<'a>(o: Option<&'a Json>, key: &str) -> (r: Option<&'a Json>)
    ensures
        deref_opt(r) == opt_field(deref_opt(o), key@),
{
    match o {
        Some(j) => j.get(key),
        None => None,
    }
}

/// The string held by an optional value (`and_then(Value::as_str)`).
fn text_of<'a>(o: Option<&'a Json>) -> (r: Option<&'a str>)
    ensures
        match r {
            Some(s) => opt_text(deref_opt(o)) == Some(s@),
            None => opt_text(deref_opt(o)) is None,
        },
{
    match o {
        Some(j) => j.as_str(),
        None => None,
    }
}

/// The first present of two optional values (`Option::or`).
fn first_of<'a>(a: Option<&'a Json>, b: Option<&'a Json>) -> (r: Option<&'a Json>)
    ensures
        deref_opt(r) == either(deref_opt(a), deref_opt(b)),
{
    match a {
        Some(x) => Some(x),
        None => b,
    }
}

/// The characters of an optional string, or `""` when absent.
fn text_or_empty<'a>(o: Option<&'a str>) -> (r: &'a str)
    ensures
        r@ == match o {
            Some(s) => s@,
            None => Seq::empty(),
        },
{
    match o {
        Some(s) => s,
        None => {
            proof {
                reveal_strlit("");
            }
            ""
        },
    }
}

/// A present, non-empty string.
fn filled<'a>(o: Option<&'a str>) -> (r: Option<&'a str>)
    ensures
        match r {
            Some(s) => match o {
                Some(t) => nonempty(Some(t@)) == Some(s@),
                None => false,
            },
            None => match o {
                Some(t) => t@.len() == 0,
                None => true,
            },
        },
{
    match o {
        Some(s) => if s.is_empty() { None } else { Some(s) },
        None => None,
    }
}

/// The session named by an event (see [`event_session`]).
fn session_named<'a>(v: &'a Json) -> (r: Option<&'a str>)
    ensures
        match r {
            Some(s) => event_session(*v) == Some(s@),
            None => event_session(*v) is None,
        },
{
    let props = v.get("properties");
    let inner = first_of(field_of(props, "sessionID"), field_of(props, "sessionId"));
    text_of(first_of(v.get("sessionID"), first_of(v.get("sessionId"), inner)))
}

/// Whether the event names a session other than `session_id`.
fn names_other(named: Option<&str>, session_id: &str) -> (r: bool)
    ensures
        r == mismatch(
            match named {
                Some(s) => Some(s@),
                None => None,
            },
            session_id@,
        ),
{
    match named {
        Some(s) => !str_eq(s, session_id),
        None => false,
    }
}

/// The event's `properties` when they form an object.
fn props_of<'a>(v: &'a Json) -> (r: Option<&'a Json>)
    ensures
        deref_opt(r) == properties_object(*v),
{
    match v.get("properties") {
        Some(p) => if p.is_object() { Some(p) } else { None },
        None => None,
    }
}

/// Returns true if this event indicates the assistant turn is complete for
/// the session `session_id` (see [`is_completion`] for the exact rules).
pub fn extract_completion(v: &Json, session_id: &str) -> (r: bool)
    ensures
        r == is_completion(*v, session_id@),
{
    if names_other(session_named(v), session_id) {
        return false;
    }
    let ty = text_or_empty(text_of(v.get("type")));
    let props = props_of(v);

    if str_eq(ty, "session.idle") {
        return true;
    }
    if str_eq(ty, "session.status") {
        if let Some(p) = props {
            let status_type = text_or_empty(text_of(field_of(p.get("status"), "type")));
            if str_eq(status_type, "idle") {
                return true;
            }
        }
    }
    if str_eq(ty, "message.part.updated") {
        if let Some(p) = props {
            let part_type = text_or_empty(text_of(field_of(p.get("part"), "type")));
            if str_eq(part_type, "step-finish") || str_eq(part_type, "finish") {
                return true;
            }
        }
    }
    if str_eq(ty, "message.updated") {
        if let Some(p) = props {
            let info = match p.get("info") {
                Some(i) => i,
                None => return false,
            };
            if info.get("finish").is_some() {
                let info_session = text_of(first_of(info.get("sessionID"), info.get("sessionId")));
                if names_other(info_session, session_id) {
                    return false;
                }
                return true;
            }
        }
    }
    if contains_str(ty, "finish") || contains_str(ty, "complete") || str_eq(ty, "done") {
        return true;
    }
    if let Some(p) = props {
        let part_type = text_or_empty(text_of(first_of(p.get("partType"), p.get("type"))));
        if str_eq(part_type, "finish") || str_eq(part_type, "step-finish") {
            return true;
        }
        if first_of(p.get("finishReason"), p.get("finish_reason")).is_some() {
            return true;
        }
    }
    false
}

/// Extracts the latest incremental text for session `session_id` from an
/// event (see [`text_delta`] for the exact rules). Never returns an empty string.
pub fn extract_text_delta(v: &Json, session_id: &str) -> (r: Option<String>)
    ensures
        match r {
            Some(s) => text_delta(*v, session_id@) == Some(s@) && s@.len() > 0,
            None => text_delta(*v, session_id@) is None,
        },
{
    let props = props_of(v);
    if names_other(session_named(v), session_id) {
        return None;
    }
    if let Some(p) = props {
        let part = p.get("part");
        let part_session = text_of(first_of(field_of(part, "sessionID"), field_of(part, "sessionId")));
        if names_other(part_session, session_id) {
            return None;
        }
        if let Some(t) = filled(text_of(p.get("delta"))) {
            return Some(t.to_string());
        }
        if let Some(t) = filled(text_of(field_of(p.get("part"), "text"))) {
            return Some(t.to_string());
        }
        if let Some(t) = filled(text_of(p.get("text"))) {
            return Some(t.to_string());
        }
        if let Some(c) = filled(text_of(p.get("content"))) {
            return Some(c.to_string());
        }
    }
    let raw = v.get("properties");
    let text = match text_of(field_of(raw, "text")) {
        Some(t) => Some(t),
        None => match text_of(v.get("text")) {
            Some(t) => Some(t),
            None => text_of(field_of(raw, "content")),
        },
    };
    match filled(text) {
        Some(t) => Some(t.to_string()),
        None => None,
    }
}

/// What a subscriber that waits for the end of the turn does with one event.
#[derive(Debug)]
pub enum StreamStep {
    /// Nothing for this session: read on.
    Skip,
    /// Hand this text to the callback, then read on.
    Text(String),
    /// The assistant's turn is complete: stop reading.
    Done,
}

/// One event of `subscribe_and_stream`: the text to hand to the callback.
///
/// `event` is the event's data parsed as JSON; it is `None` when the data
/// was empty or not JSON, and such an event is skipped.
pub fn stream_event(event: Option<&Json>, session_id: &str) -> (r: Option<String>)
    ensures
        match event {
            None => r is None,
            Some(v) => match r {
                Some(s) => text_delta(*v, session_id@) == Some(s@),
                None => text_delta(*v, session_id@) is None,
            },
        },
{
    match event {
        None => None,
        Some(v) => extract_text_delta(v, session_id),
    }
}

/// One event of `subscribe_and_stream_until_done`: a completion event stops
/// the stream (even one that also carries text); otherwise the event's text,
/// if any, goes to the callback.
pub fn until_done_event(event: Option<&Json>, session_id: &str) -> (r: StreamStep)
    ensures
        match event {
            None => r is Skip,
            Some(v) => if is_completion(*v, session_id@) {
                r is Done
            } else {
                match text_delta(*v, session_id@) {
                    Some(t) => r matches StreamStep::Text(s) && s@ == t,
                    None => r is Skip,
                }
            },
        },
{
    match event {
        None => StreamStep::Skip,
        Some(v) => {
            if extract_completion(v, session_id) {
                StreamStep::Done
            } else {
                match extract_text_delta(v, session_id) {
                    Some(s) => StreamStep::Text(s),
                    None => StreamStep::Skip,
                }
            }
        },
    }
}

/// The texts a subscriber waiting for the end of the turn hands to its
/// callback for the events `events` (each event's parsed data, `None` when
/// empty or not JSON), in order, and whether a completion event stopped it:
/// the text of each event before the first completion event of session
/// `sid`, and nothing from that event on.
pub open spec fn texts_until_done(events: Seq<Option<Json>>, sid: Seq<char>) -> (Seq<Seq<char>>, bool)
    decreases events.len(),
{
    if events.len() == 0 {
        (Seq::empty(), false)
    } else if events[0] is Some && is_completion(events[0]->0, sid) {
        (Seq::empty(), true)
    } else {
        let rest = texts_until_done(events.drop_first(), sid);
        let head = match events[0] {
            Some(v) => match text_delta(v, sid) {
                Some(t) => seq![t],
                None => Seq::empty(),
            },
            None => Seq::empty(),
        };
        (head + rest.0, rest.1)
    }
}

/// Runs [`until_done_event`] over `events` as a subscriber does: the texts
/// handed to the callback, in order, and whether a completion event ended
/// the stream (see [`texts_until_done`]).
pub fn collect_until_done(events: &[Option<Json>], session_id: &str) -> (r: (Vec<String>, bool))
    ensures
        r.0@.map_values(|s: String| s@) == texts_until_done(events@, session_id@).0,
        r.1 == texts_until_done(events@, session_id@).1,
{
    let mut out: Vec<String> = Vec::new();
    let mut i: usize = 0;
    assert(events@.skip(0) =~= events@);
    while i < events.len()
        invariant
            i <= events@.len(),
            texts_until_done(events@, session_id@).0 == out@.map_values(|s: String| s@)
                + texts_until_done(events@.skip(i as int), session_id@).0,
            texts_until_done(events@, session_id@).1 == texts_until_done(events@.skip(i as int), session_id@).1,
        decreases events@.len() - i,
    {
        let ghost rest = events@.skip(i as int);
        assert(rest[0] == events@[i as int]);
        assert(rest.drop_first() =~= events@.skip(i + 1));
        let ghost before = out@.map_values(|s: String| s@);
        let ev = match &events[i] {
            Some(v) => Some(v),
            None => None,
        };
        assert(ev matches Some(v) ==> events@[i as int] == Some(*v));
        match until_done_event(ev, session_id) {
            StreamStep::Done => {
                assert(texts_until_done(rest, session_id@).0 =~= Seq::<Seq<char>>::empty());
                assert(out@.map_values(|s: String| s@) + Seq::<Seq<char>>::empty() =~= out@.map_values(|s: String| s@));
                return (out, true);
            },
            StreamStep::Text(t) => {
                let ghost tv = t@;
                out.push(t);
                assert(out@.map_values(|s: String| s@) =~= before.push(tv));
                assert(before.push(tv) + texts_until_done(events@.skip(i + 1), session_id@).0
                    =~= before + (seq![tv] + texts_until_done(events@.skip(i + 1), session_id@).0));
            },
            StreamStep::Skip => {
                assert(seq![] + texts_until_done(events@.skip(i + 1), session_id@).0
                    =~= texts_until_done(events@.skip(i + 1), session_id@).0);
            },
        }
        i += 1;
    }
    assert(events@.skip(i as int) =~= Seq::<Option<Json>>::empty());
    assert(out@.map_values(|s: String| s@) + Seq::<Seq<char>>::empty() =~= out@.map_values(|s: String| s@));
    (out, false)
}

/// An event that names another session neither ends this session's turn
/// nor carries text for it.
pub proof fn other_session_is_ignored(v: Json, sid: Seq<char>)
    requires
        mismatch(event_session(v), sid),
    ensures
        !is_completion(v, sid),
        text_delta(v, sid) is None,
{
}

/// A `session.idle` event that names no other session ends the turn.
pub proof fn idle_completes(v: Json, sid: Seq<char>)
    requires
        event_type(v) == "session.idle"@,
        !mismatch(event_session(v), sid),
    ensures
        is_completion(v, sid),
{
}

/// With object properties and no other session named, a non-empty
/// `properties.delta` string is the text, whatever else the event holds.
pub proof fn delta_is_preferred(v: Json, sid: Seq<char>, d: Seq<char>)
    requires
        properties_object(v) is Some,
        !mismatch(event_session(v), sid),
        !mismatch(part_session(properties_object(v)->0), sid),
        opt_text(properties_object(v)->0.field("delta"@)) == Some(d),
        d.len() > 0,
    ensures
        text_delta(v, sid) == Some(d),
{
}

/// The text an event carries is never empty.
pub proof fn text_is_never_empty(v: Json, sid: Seq<char>)
    requires
        text_delta(v, sid) is Some,
    ensures
        text_delta(v, sid)->0.len() > 0,
{
}

/// No occurrence of `pat` in `s` when `s` holds none of `pat`'s first character.
proof fn lemma_no_infix(s: Seq<char>, pat: Seq<char>)
    requires
        pat.len() > 0,
        forall|j: int| 0 <= j < s.len() ==> s[j] != pat[0],
    ensures
        !has_infix(s, pat),
{
    assert forall|i: int| 0 <= i && i + pat.len() <= s.len() implies #[trigger] s.subrange(i, i + pat.len()) != pat by {
        assert(s.subrange(i, i + pat.len())[0] == s[i]);
    }
}

/// The type `session.status` holds neither `finish` nor `complete` and is none of the
/// other completion types.
proof fn lemma_session_status_type()
    ensures
        !has_infix("session.status"@, "finish"@),
        !has_infix("session.status"@, "complete"@),
        "session.status"@ != "session.idle"@,
        "session.status"@ != "message.part.updated"@,
        "session.status"@ != "message.updated"@,
        "session.status"@ != "done"@,
{
    reveal_strlit("session.status");
    reveal_strlit("finish");
    reveal_strlit("complete");
    reveal_strlit("session.idle");
    reveal_strlit("message.part.updated");
    reveal_strlit("message.updated");
    reveal_strlit("done");
    let s = "session.status"@;
    assert forall|j: int| 0 <= j < s.len() implies s[j] != 'f' && s[j] != 'c' by {
        assert(s[j] == 's' || s[j] == 'e' || s[j] == 'i' || s[j] == 'o' || s[j] == 'n' || s[j] == '.'
            || s[j] == 't' || s[j] == 'a' || s[j] == 'u');
    }
    lemma_no_infix(s, "finish"@);
    lemma_no_infix(s, "complete"@);
}

/// A `session.status` event ends the turn only when its `status.type` is `idle`: with
/// any other status (such as `busy`), and object properties that hold neither a
/// `partType`, a `type`, a `finishReason` nor a `finish_reason`, it does not, whatever
/// session it names.
pub proof fn non_idle_status_does_not_complete(v: Json, sid: Seq<char>)
    requires
        opt_text(v.field("type"@)) == Some("session.status"@),
        v.field("properties"@) matches Some(p) && p.is_obj()
            && opt_text(opt_field(p.field("status"@), "type"@)) != Some("idle"@)
            && p.field("partType"@) is None && p.field("type"@) is None
            && p.field("finishReason"@) is None && p.field("finish_reason"@) is None,
    ensures
        !is_completion(v, sid),
{
    lemma_session_status_type();
    reveal_strlit("idle");
    reveal_strlit("finish");
    reveal_strlit("step-finish");
    assert("idle"@.len() == 4 && "finish"@.len() == 6 && "step-finish"@.len() == 11);
}

/// A `session.status` event whose `status.type` is `idle` ends the turn when it names
/// no session.
pub proof fn idle_status_completes(v: Json, sid: Seq<char>)
    requires
        opt_text(v.field("type"@)) == Some("session.status"@),
        v.field("sessionID"@) is None,
        v.field("sessionId"@) is None,
        v.field("properties"@) matches Some(p) && p.is_obj()
            && p.field("sessionID"@) is None && p.field("sessionId"@) is None
            && opt_text(opt_field(p.field("status"@), "type"@)) == Some("idle"@),
    ensures
        is_completion(v, sid),
{
    lemma_session_status_type();
}

/// An event whose session is named only in its properties, as `sessionID`, and is
/// another session, carries no text for `sid` and does not end its turn.
pub proof fn other_session_in_properties_is_ignored(v: Json, sid: Seq<char>, other: Seq<char>)
    requires
        v.field("sessionID"@) is None,
        v.field("sessionId"@) is None,
        opt_text(opt_field(v.field("properties"@), "sessionID"@)) == Some(other),
        other != sid,
    ensures
        text_delta(v, sid) is None,
        !is_completion(v, sid),
{
}

/// Likewise when the properties name the other session as `sessionId`.
pub proof fn other_session_id_in_properties_is_ignored(v: Json, sid: Seq<char>, other: Seq<char>)
    requires
        v.field("sessionID"@) is None,
        v.field("sessionId"@) is None,
        opt_field(v.field("properties"@), "sessionID"@) is None,
        opt_text(opt_field(v.field("properties"@), "sessionId"@)) == Some(other),
        other != sid,
    ensures
        text_delta(v, sid) is None,
        !is_completion(v, sid),
{
}

/// An event naming another session at its top level, as `sessionID` (or, failing that,
/// `sessionId`), carries no text for `sid` and does not end its turn, whatever its
/// properties say.
pub proof fn other_session_at_top_is_ignored(v: Json, sid: Seq<char>, other: Seq<char>)
    requires
        opt_text(v.field("sessionID"@)) == Some(other)
            || (v.field("sessionID"@) is None && opt_text(v.field("sessionId"@)) == Some(other)),
        other != sid,
    ensures
        text_delta(v, sid) is None,
        !is_completion(v, sid),
{
}

/// An event naming `sid` in its properties, with a non-empty `delta` string and no
/// other session named by its part, carries that delta for `sid`.
pub proof fn own_session_delta_is_text(v: Json, sid: Seq<char>, d: Seq<char>)
    requires
        v.field("sessionID"@) is None,
        v.field("sessionId"@) is None,
        v.field("properties"@) matches Some(p) && p.is_obj()
            && opt_text(p.field("sessionID"@)) == Some(sid)
            && opt_field(p.field("part"@), "sessionID"@) is None
            && opt_field(p.field("part"@), "sessionId"@) is None
            && opt_text(p.field("delta"@)) == Some(d),
        d.len() > 0,
    ensures
        text_delta(v, sid) == Some(d),
{
}

/// The type `message.updated` holds neither `finish` nor `complete` and is none of
/// the earlier completion types.
proof fn lemma_message_updated_type()
    ensures
        !has_infix("message.updated"@, "finish"@),
        !has_infix("message.updated"@, "complete"@),
        "message.updated"@ != "session.idle"@,
        "message.updated"@ != "session.status"@,
        "message.updated"@ != "message.part.updated"@,
        "message.updated"@ != "done"@,
{
    reveal_strlit("message.updated");
    reveal_strlit("finish");
    reveal_strlit("complete");
    reveal_strlit("session.idle");
    reveal_strlit("session.status");
    reveal_strlit("message.part.updated");
    reveal_strlit("done");
    let s = "message.updated"@;
    assert forall|j: int| 0 <= j < s.len() implies s[j] != 'f' && s[j] != 'c' by {
        assert(s[j] == 'm' || s[j] == 'e' || s[j] == 's' || s[j] == 'a' || s[j] == 'g' || s[j] == '.'
            || s[j] == 'u' || s[j] == 'p' || s[j] == 'd' || s[j] == 't');
    }
    lemma_no_infix(s, "finish"@);
    lemma_no_infix(s, "complete"@);
}

/// A `message.updated` event with object properties but no `info` does not end the turn.
pub proof fn message_update_without_info_does_not_complete(v: Json, sid: Seq<char>)
    requires
        opt_text(v.field("type"@)) == Some("message.updated"@),
        v.field("properties"@) matches Some(p) && p.is_obj() && p.field("info"@) is None,
    ensures
        !is_completion(v, sid),
{
    lemma_message_updated_type();
}

/// A `message.updated` event whose `info` has a `finish` ends the turn when nothing in
/// it names a session.
pub proof fn finished_message_completes(v: Json, sid: Seq<char>)
    requires
        opt_text(v.field("type"@)) == Some("message.updated"@),
        v.field("sessionID"@) is None,
        v.field("sessionId"@) is None,
        v.field("properties"@) matches Some(p) && p.is_obj()
            && p.field("sessionID"@) is None && p.field("sessionId"@) is None,
        opt_field(opt_field(v.field("properties"@), "info"@), "finish"@) is Some,
        opt_field(opt_field(v.field("properties"@), "info"@), "sessionID"@) is None,
        opt_field(opt_field(v.field("properties"@), "info"@), "sessionId"@) is None,
    ensures
        is_completion(v, sid),
{
    lemma_message_updated_type();
}

/// A `message.updated` event whose `info` has a `finish` but names another session
/// (as `sessionID`) does not end this session's turn.
pub proof fn finished_message_of_other_session_does_not_complete(v: Json, sid: Seq<char>, other: Seq<char>)
    requires
        opt_text(v.field("type"@)) == Some("message.updated"@),
        v.field("properties"@) matches Some(p) && p.is_obj(),
        opt_field(opt_field(v.field("properties"@), "info"@), "finish"@) is Some,
        opt_text(opt_field(opt_field(v.field("properties"@), "info"@), "sessionID"@)) == Some(other),
        other != sid,
    ensures
        !is_completion(v, sid),
{
    lemma_message_updated_type();
}

/// A `message.part.updated` event whose part has type `step-finish` or `finish` ends
/// the turn when it names no session.
pub proof fn finished_part_completes(v: Json, sid: Seq<char>)
    requires
        opt_text(v.field("type"@)) == Some("message.part.updated"@),
        v.field("sessionID"@) is None,
        v.field("sessionId"@) is None,
        v.field("properties"@) matches Some(p) && p.is_obj()
            && p.field("sessionID"@) is None && p.field("sessionId"@) is None
            && (opt_text(opt_field(p.field("part"@), "type"@)) == Some("step-finish"@)
                || opt_text(opt_field(p.field("part"@), "type"@)) == Some("finish"@)),
    ensures
        is_completion(v, sid),
{
    reveal_strlit("message.part.updated");
    reveal_strlit("session.idle");
    reveal_strlit("session.status");
}

/// With object properties that name no session and no non-empty `delta`, a non-empty
/// `part.text` is the text.
pub proof fn part_text_follows_delta(v: Json, sid: Seq<char>, t: Seq<char>)
    requires
        v.field("sessionID"@) is None,
        v.field("sessionId"@) is None,
        v.field("properties"@) matches Some(p) && p.is_obj()
            && p.field("sessionID"@) is None && p.field("sessionId"@) is None
            && opt_field(p.field("part"@), "sessionID"@) is None
            && opt_field(p.field("part"@), "sessionId"@) is None
            && p.field("delta"@) is None
            && opt_text(opt_field(p.field("part"@), "text"@)) == Some(t),
        t.len() > 0,
    ensures
        text_delta(v, sid) == Some(t),
{
}

/// Without properties, an event's top-level non-empty `text` is its text, when it
/// names no session.
pub proof fn top_level_text_without_properties(v: Json, sid: Seq<char>, t: Seq<char>)
    requires
        v.field("sessionID"@) is None,
        v.field("sessionId"@) is None,
        v.field("properties"@) is None,
        opt_text(v.field("text"@)) == Some(t),
        t.len() > 0,
    ensures
        text_delta(v, sid) == Some(t),
{
}

} // verus!
