use opencode_sdk::event::{collect_until_done, extract_completion, extract_text_delta, stream_event, until_done_event, StreamStep};
use opencode_sdk::json::Json;

fn s(v: &str) -> Json {
    Json::String(v.to_string())
}

fn obj(members: Vec<(&str, Json)>) -> Json {
    Json::Object(members.into_iter().map(|(k, v)| (k.to_string(), v)).collect())
}

// Scenarios of the event parsing module.

#[test]
fn event_extract_text_delta_matching_session_properties_text() {
    let v = obj(vec![("sessionID", s("ses_123")), ("properties", obj(vec![("text", s("hello"))]))]);
    assert_eq!(extract_text_delta(&v, "ses_123"), Some("hello".to_string()));
}

#[test]
fn event_extract_text_delta_non_matching_session_returns_none() {
    let v = obj(vec![("sessionID", s("ses_other")), ("properties", obj(vec![("text", s("hello"))]))]);
    assert_eq!(extract_text_delta(&v, "ses_123"), None);
}

#[test]
fn event_extract_text_delta_properties_content() {
    let v = obj(vec![("sessionId", s("ses_1")), ("properties", obj(vec![("content", s("world"))]))]);
    assert_eq!(extract_text_delta(&v, "ses_1"), Some("world".to_string()));
}

#[test]
fn event_extract_text_delta_empty_text_returns_none() {
    let v = obj(vec![("sessionID", s("ses_1")), ("properties", obj(vec![("text", s(""))]))]);
    assert_eq!(extract_text_delta(&v, "ses_1"), None);
}

fn part_delta_event() -> Json {
    obj(vec![
        ("type", s("message.part.updated")),
        (
            "properties",
            obj(vec![
                ("delta", s("hello ")),
                (
                    "part",
                    obj(vec![
                        ("sessionID", s("ses_1")),
                        ("messageID", s("msg_1")),
                        ("type", s("text")),
                        ("text", s("hello ")),
                    ]),
                ),
            ]),
        ),
    ])
}

#[test]
fn event_extract_text_delta_part_delta() {
    let v = part_delta_event();
    assert_eq!(extract_text_delta(&v, "ses_1"), Some("hello ".to_string()));
    assert_eq!(extract_text_delta(&v, "ses_other"), None);
}

#[test]
fn event_extract_completion_finish_type() {
    let v = obj(vec![
        ("type", s("message.part.updated")),
        ("sessionId", s("ses_1")),
        ("properties", obj(vec![("partType", s("finish")), ("finishReason", s("end_turn"))])),
    ]);
    assert!(extract_completion(&v, "ses_1"));
}

#[test]
fn event_extract_completion_non_matching_session_returns_false() {
    let v = obj(vec![
        ("type", s("message.part.updated")),
        ("sessionId", s("ses_other")),
        ("properties", obj(vec![("partType", s("finish"))])),
    ]);
    assert!(!extract_completion(&v, "ses_1"));
}

#[test]
fn event_extract_completion_session_idle() {
    let v = obj(vec![("type", s("session.idle")), ("properties", obj(vec![("sessionID", s("ses_1"))]))]);
    assert!(extract_completion(&v, "ses_1"));
}

#[test]
fn event_extract_completion_session_status_idle() {
    let v = obj(vec![
        ("type", s("session.status")),
        ("properties", obj(vec![("sessionID", s("ses_1")), ("status", obj(vec![("type", s("idle"))]))])),
    ]);
    assert!(extract_completion(&v, "ses_1"));
}

#[test]
fn event_extract_completion_step_finish() {
    let v = obj(vec![
        ("type", s("message.part.updated")),
        (
            "properties",
            obj(vec![("sessionID", s("ses_1")), ("part", obj(vec![("type", s("step-finish")), ("reason", s("stop"))]))]),
        ),
    ]);
    assert!(extract_completion(&v, "ses_1"));
}

#[test]
fn event_extract_completion_message_updated_finish() {
    let v = obj(vec![
        ("type", s("message.updated")),
        (
            "properties",
            obj(vec![(
                "info",
                obj(vec![("sessionID", s("ses_1")), ("finish", s("stop")), ("role", s("assistant"))]),
            )]),
        ),
    ]);
    assert!(extract_completion(&v, "ses_1"));
}

// The same scenarios, as the event module's own tests state them.

#[test]
fn mod_extract_text_delta_matching_session_properties_text() {
    let v = obj(vec![("sessionID", s("ses_123")), ("properties", obj(vec![("text", s("hello"))]))]);
    assert_eq!(extract_text_delta(&v, "ses_123"), Some("hello".to_string()));
}

#[test]
fn mod_extract_text_delta_non_matching_session_returns_none() {
    let v = obj(vec![("sessionID", s("ses_other")), ("properties", obj(vec![("text", s("hello"))]))]);
    assert_eq!(extract_text_delta(&v, "ses_123"), None);
}

#[test]
fn mod_extract_text_delta_properties_content() {
    let v = obj(vec![("sessionId", s("ses_1")), ("properties", obj(vec![("content", s("world"))]))]);
    assert_eq!(extract_text_delta(&v, "ses_1"), Some("world".to_string()));
}

#[test]
fn mod_extract_text_delta_empty_text_returns_none() {
    let v = obj(vec![("sessionID", s("ses_1")), ("properties", obj(vec![("text", s(""))]))]);
    assert_eq!(extract_text_delta(&v, "ses_1"), None);
}

#[test]
fn mod_extract_text_delta_part_delta() {
    let v = part_delta_event();
    assert_eq!(extract_text_delta(&v, "ses_1"), Some("hello ".to_string()));
    assert_eq!(extract_text_delta(&v, "ses_other"), None);
}

#[test]
fn mod_extract_completion_finish_type() {
    let v = obj(vec![
        ("type", s("message.part.updated")),
        ("sessionId", s("ses_1")),
        ("properties", obj(vec![("partType", s("finish")), ("finishReason", s("end_turn"))])),
    ]);
    assert!(extract_completion(&v, "ses_1"));
}

#[test]
fn mod_extract_completion_non_matching_session_returns_false() {
    let v = obj(vec![
        ("type", s("message.part.updated")),
        ("sessionId", s("ses_other")),
        ("properties", obj(vec![("partType", s("finish"))])),
    ]);
    assert!(!extract_completion(&v, "ses_1"));
}

#[test]
fn mod_extract_completion_session_idle() {
    let v = obj(vec![("type", s("session.idle")), ("properties", obj(vec![("sessionID", s("ses_1"))]))]);
    assert!(extract_completion(&v, "ses_1"));
}

#[test]
fn mod_extract_completion_session_status_idle() {
    let v = obj(vec![
        ("type", s("session.status")),
        ("properties", obj(vec![("sessionID", s("ses_1")), ("status", obj(vec![("type", s("idle"))]))])),
    ]);
    assert!(extract_completion(&v, "ses_1"));
}

#[test]
fn mod_extract_completion_step_finish() {
    let v = obj(vec![
        ("type", s("message.part.updated")),
        (
            "properties",
            obj(vec![("sessionID", s("ses_1")), ("part", obj(vec![("type", s("step-finish")), ("reason", s("stop"))]))]),
        ),
    ]);
    assert!(extract_completion(&v, "ses_1"));
}

#[test]
fn mod_extract_completion_message_updated_finish() {
    let v = obj(vec![
        ("type", s("message.updated")),
        (
            "properties",
            obj(vec![(
                "info",
                obj(vec![("sessionID", s("ses_1")), ("finish", s("stop")), ("role", s("assistant"))]),
            )]),
        ),
    ]);
    assert!(extract_completion(&v, "ses_1"));
}

// Further cases.

#[test]
fn other_session_event_neither_completes_nor_streams() {
    let v = obj(vec![
        ("type", s("session.idle")),
        ("sessionID", s("ses_2")),
        ("properties", obj(vec![("delta", s("x"))])),
    ]);
    assert!(!extract_completion(&v, "ses_1"));
    assert_eq!(extract_text_delta(&v, "ses_1"), None);
    assert!(extract_completion(&v, "ses_2"));
}

#[test]
fn part_of_other_session_carries_no_text() {
    let v = obj(vec![(
        "properties",
        obj(vec![("part", obj(vec![("sessionId", s("ses_9")), ("text", s("t"))]))]),
    )]);
    assert_eq!(extract_text_delta(&v, "ses_1"), None);
    assert_eq!(extract_text_delta(&v, "ses_9"), Some("t".to_string()));
}

#[test]
fn delta_is_preferred_over_part_text() {
    let v = obj(vec![(
        "properties",
        obj(vec![("text", s("whole")), ("delta", s("new")), ("part", obj(vec![("text", s("part"))]))]),
    )]);
    assert_eq!(extract_text_delta(&v, "ses_1"), Some("new".to_string()));
}

#[test]
fn top_level_text_used_when_properties_are_not_an_object() {
    let v = obj(vec![("properties", s("x")), ("text", s("top"))]);
    assert_eq!(extract_text_delta(&v, "s"), Some("top".to_string()));
    let v = obj(vec![("text", s(""))]);
    assert_eq!(extract_text_delta(&v, "s"), None);
}

#[test]
fn legacy_completion_forms() {
    assert!(extract_completion(&obj(vec![("type", s("response.completed"))]), "s"));
    assert!(extract_completion(&obj(vec![("type", s("done"))]), "s"));
    assert!(extract_completion(&obj(vec![("properties", obj(vec![("finish_reason", Json::Null)]))]), "s"));
    assert!(extract_completion(&obj(vec![("properties", obj(vec![("type", s("step-finish"))]))]), "s"));
    assert!(!extract_completion(&obj(vec![("type", s("message.part.updated"))]), "s"));
    assert!(!extract_completion(&Json::Null, "s"));
}

#[test]
fn message_updated_without_info_is_not_completion() {
    let v = obj(vec![("type", s("message.updated")), ("properties", obj(vec![("finishReason", s("x"))]))]);
    assert!(!extract_completion(&v, "s"));
    let v = obj(vec![
        ("type", s("message.updated")),
        ("properties", obj(vec![("info", obj(vec![("finish", s("stop")), ("sessionID", s("other"))]))])),
    ]);
    assert!(!extract_completion(&v, "s"));
}

#[test]
fn stream_steps() {
    assert_eq!(stream_event(None, "s"), None);
    let v = obj(vec![("properties", obj(vec![("delta", s("d"))]))]);
    assert_eq!(stream_event(Some(&v), "s"), Some("d".to_string()));
    assert!(matches!(until_done_event(None, "s"), StreamStep::Skip));
    match until_done_event(Some(&v), "s") {
        StreamStep::Text(t) => assert_eq!(t, "d"),
        other => panic!("unexpected {:?}", other),
    }
    let done = obj(vec![("type", s("session.idle")), ("properties", obj(vec![("delta", s("d"))]))]);
    assert!(matches!(until_done_event(Some(&done), "s"), StreamStep::Done));
    assert!(matches!(until_done_event(Some(&Json::Null), "s"), StreamStep::Skip));
}

#[test]
fn texts_until_done_stop_at_completion() {
    let d = |t: &str| Some(obj(vec![("properties", obj(vec![("delta", s(t))]))]));
    let done = Some(obj(vec![("type", s("session.idle"))]));
    let other = Some(obj(vec![("sessionID", s("x")), ("properties", obj(vec![("delta", s("no"))]))]));
    let events = vec![d("a"), None, other, d("b"), done, d("c")];
    let (texts, finished) = collect_until_done(&events, "s");
    assert_eq!(texts, vec!["a".to_string(), "b".to_string()]);
    assert!(finished);
    let (texts, finished) = collect_until_done(&[d("x")], "s");
    assert_eq!(texts, vec!["x".to_string()]);
    assert!(!finished);
}
