use opencode_sdk::reply_log::{part_log, preview, reply_log, PartLog, LOG_PREVIEW_LEN};
use opencode_sdk::session::{equal_ignoring_ascii_case, fetch_last_assistant_message, MessageInfo, MessageListItem, Part};

fn part(kind: &str) -> Part {
    Part {
        part_type: kind.to_string(),
        text: None,
        tool_name: None,
        tool_call_id: None,
        is_error: None,
        finished: None,
        reasoning: None,
        image_url: None,
        finish_reason: None,
        tool_output: None,
    }
}

fn message(role: &str, parts: Vec<Part>) -> MessageListItem {
    MessageListItem { info: MessageInfo { role: role.to_string() }, parts }
}

#[test]
fn text_content_concatenates_text_parts() {
    let mut tool = part("tool");
    tool.text = Some("ignored".to_string());
    let m = message("assistant", vec![Part::text("a"), tool, Part::text("b")]);
    assert_eq!(m.text_content(), "ab");
}

#[test]
fn last_assistant_message_is_chosen() {
    let ms = vec![
        message("assistant", vec![Part::text("first")]),
        message("ASSISTANT", vec![part("tool")]),
        message("user", vec![Part::text("u")]),
    ];
    let m = fetch_last_assistant_message(&ms).unwrap();
    assert_eq!(m.info.role, "ASSISTANT");
    assert_eq!(m.parts.len(), 1);
    assert!(fetch_last_assistant_message(&[message("user", vec![Part::text("u")])]).is_none());
    assert!(fetch_last_assistant_message(&[]).is_none());
    // The last assistant message without content gives no reply, even if an earlier one has content.
    let ms = vec![message("assistant", vec![Part::text("x")]), message("assistant", vec![])];
    assert!(fetch_last_assistant_message(&ms).is_none());
}

#[test]
fn ascii_case_insensitive_roles() {
    assert!(equal_ignoring_ascii_case("AssIstant", "assistant"));
    assert!(!equal_ignoring_ascii_case("assistants", "assistant"));
    assert!(!equal_ignoring_ascii_case("ässistant", "assistant"));
}

#[test]
fn previews_cut_by_characters_and_flag_by_bytes() {
    let p = preview("abc", 2);
    assert_eq!(p.text, "ab");
    assert!(p.truncated);
    let p = preview("你好", 2);
    assert_eq!(p.text, "你好");
    assert!(p.truncated);
    let p = preview("ab", 2);
    assert!(!p.truncated);
    let long = "x".repeat(LOG_PREVIEW_LEN + 10);
    assert_eq!(preview(&long, LOG_PREVIEW_LEN).text.len(), LOG_PREVIEW_LEN);
}

#[test]
fn part_reports_by_type() {
    let mut p = part("tool_call");
    p.tool_name = Some("grep".to_string());
    p.finished = Some(true);
    assert!(matches!(part_log(&p), PartLog::ToolCall { tool_name: Some(n), finished: Some(true) } if n == "grep"));
    let mut p = part("tool_result");
    p.tool_call_id = Some("c1".to_string());
    p.is_error = Some(false);
    assert!(matches!(part_log(&p), PartLog::ToolResult { tool_call_id: Some(c), is_error: Some(false), .. } if c == "c1"));
    let mut p = part("reasoning");
    p.reasoning = Some(String::new());
    assert!(matches!(part_log(&p), PartLog::Reasoning { preview: None }));
    p.reasoning = Some("think".to_string());
    assert!(matches!(part_log(&p), PartLog::Reasoning { preview: Some(pv) } if pv.text == "think" && !pv.truncated));
    assert!(matches!(part_log(&part("image_url")), PartLog::Image { image_url: None }));
    assert!(matches!(part_log(&part("binary")), PartLog::Binary));
    assert!(matches!(part_log(&part("finish")), PartLog::Finish { finish_reason: None }));
    assert!(matches!(part_log(&Part::text("t")), PartLog::Other { part_type, preview: Some(pv) } if part_type == "text" && pv.text == "t"));
    assert!(matches!(part_log(&part("step-start")), PartLog::Other { preview: None, .. }));
}

#[test]
fn reply_report() {
    let r = reply_log(&message("assistant", vec![Part::text("hello"), part("finish")]));
    assert_eq!(r.parts_count, 2);
    assert_eq!(r.text_len, 5);
    assert!(matches!(&r.text_preview, Some(p) if p.text == "hello" && !p.truncated));
    assert_eq!(r.parts.len(), 2);
    let r = reply_log(&message("assistant", vec![part("binary")]));
    assert!(r.text_preview.is_none());
    assert_eq!(r.text_len, 0);
}
