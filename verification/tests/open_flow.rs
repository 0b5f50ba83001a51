use opencode_sdk::open::{
    chat_to_send, expects_event, open_step, reply_after_wait, stream_mode, OpenAction, OpenError, OpenEvent, OpenOptions, OpenPhase,
    ServerHandle, StreamMode, SERVER_POLL_INTERVAL_MS,
};
use opencode_sdk::session::{MessageInfo, MessageListItem, Part};
use std::path::PathBuf;

fn message(role: &str, parts: Vec<Part>) -> MessageListItem {
    MessageListItem { info: MessageInfo { role: role.to_string() }, parts }
}

#[test]
fn default_options() {
    let o = OpenOptions::default();
    assert_eq!(o.hostname, "127.0.0.1");
    assert_eq!(o.port, 4096);
    assert!(o.auto_start);
    assert_eq!(o.command, "opencode");
    assert!(o.server_args.is_empty());
    assert_eq!(o.health_check_timeout_ms, 3000);
    assert_eq!(o.startup_timeout_ms, 30000);
    assert!(o.project_path.is_none() && o.chat_content.is_none() && o.working_directory.is_none());
    assert!(o.auto_install);
    assert_eq!(o.wait_for_response_ms, 300000);
    assert!(!o.stream_output);
    assert_eq!(o.base_url(), "http://127.0.0.1:4096");
}

#[test]
fn builder_setters() {
    let o = OpenOptions::default()
        .hostname("localhost")
        .port(8080)
        .auto_start(false)
        .command("oc")
        .server_args(vec!["--x".to_string()])
        .health_check_timeout_ms(1)
        .startup_timeout_ms(2)
        .project_path(PathBuf::from("/p"))
        .chat_content("hi")
        .working_directory(Some(PathBuf::from("/w")))
        .auto_install(false)
        .wait_for_response_ms(3)
        .stream_output(true);
    assert_eq!(o.base_url(), "http://localhost:8080");
    assert!(!o.auto_start);
    assert_eq!(o.command, "oc");
    assert_eq!(o.server_args, vec!["--x".to_string()]);
    assert_eq!((o.health_check_timeout_ms, o.startup_timeout_ms, o.wait_for_response_ms), (1, 2, 3));
    assert_eq!(o.chat_content.as_deref(), Some("hi"));
    assert!(!o.auto_install && o.stream_output);
    assert_eq!(o.working_dir(), Some(&PathBuf::from("/p")));
    let o = OpenOptions::default().working_directory(Some(PathBuf::from("/w")));
    assert_eq!(o.working_dir(), Some(&PathBuf::from("/w")));
    assert_eq!(OpenOptions::default().working_dir(), None);
}

#[test]
fn server_handle_keeps_pid() {
    assert_eq!(ServerHandle::new(42).pid(), 42);
}

#[test]
fn without_auto_start_connects_directly() {
    let o = OpenOptions::default().auto_start(false);
    let (phase, action) = open_step(&o, OpenPhase::Start, OpenEvent::Begin);
    assert!(matches!(phase, OpenPhase::Finished));
    assert!(matches!(action, OpenAction::Connect { server_pid: None }));
}

#[test]
fn healthy_server_is_used_as_is() {
    let o = OpenOptions::default();
    let (phase, action) = open_step(&o, OpenPhase::Start, OpenEvent::Begin);
    assert!(matches!(&action, OpenAction::DetectCommand { command } if command == "opencode"));
    let (phase, action) =
        open_step(&o, phase, OpenEvent::CommandDetected { available: true, path: Some("/bin/opencode".to_string()) });
    assert!(matches!(&phase, OpenPhase::Probing { command } if command == "/bin/opencode"));
    assert!(matches!(action, OpenAction::CheckHealth));
    let (phase, action) = open_step(&o, phase, OpenEvent::HealthChecked { healthy: true });
    assert!(matches!(phase, OpenPhase::Finished));
    assert!(matches!(action, OpenAction::Connect { server_pid: None }));
}

#[test]
fn spawned_server_polled_until_ready() {
    let o = OpenOptions::default().startup_timeout_ms(1000);
    let phase = OpenPhase::Probing { command: "opencode".to_string() };
    let (phase, action) = open_step(&o, phase, OpenEvent::HealthChecked { healthy: false });
    assert!(matches!(&action, OpenAction::Spawn { command } if command == "opencode"));
    let (phase, action) = open_step(&o, phase, OpenEvent::ServerSpawned { pid: 7 });
    assert!(matches!(phase, OpenPhase::Polling { pid: 7, elapsed_ms: 500 }));
    assert!(matches!(action, OpenAction::SleepThenCheckHealth { ms } if ms == SERVER_POLL_INTERVAL_MS));
    let (phase, _) = open_step(&o, phase, OpenEvent::HealthChecked { healthy: false });
    assert!(matches!(phase, OpenPhase::Polling { pid: 7, elapsed_ms: 1000 }));
    let (phase, action) = open_step(&o, phase, OpenEvent::HealthChecked { healthy: true });
    assert!(matches!(phase, OpenPhase::Finished));
    assert!(matches!(action, OpenAction::Connect { server_pid: Some(7) }));
}

#[test]
fn startup_timeout_kills_spawned_server() {
    let o = OpenOptions::default().startup_timeout_ms(1000);
    let phase = OpenPhase::Polling { pid: 9, elapsed_ms: 1000 };
    let (phase, action) = open_step(&o, phase, OpenEvent::HealthChecked { healthy: false });
    assert!(matches!(phase, OpenPhase::Finished));
    match action {
        OpenAction::Abort { kill_pid: Some(9), error: OpenError::StartupTimeout { url, timeout_ms: 1000 } } => {
            assert_eq!(url, "http://127.0.0.1:4096")
        },
        other => panic!("unexpected {:?}", other),
    }
    let o = OpenOptions::default().startup_timeout_ms(0);
    let (_, action) = open_step(&o, OpenPhase::Spawning, OpenEvent::ServerSpawned { pid: 3 });
    assert!(matches!(action, OpenAction::Abort { kill_pid: Some(3), error: OpenError::StartupTimeout { .. } }));
}

#[test]
fn missing_command_installs_or_fails() {
    let o = OpenOptions::default();
    let (phase, action) =
        open_step(&o, OpenPhase::Detecting, OpenEvent::CommandDetected { available: false, path: None });
    assert!(matches!(phase, OpenPhase::Installing));
    assert!(matches!(action, OpenAction::Install));
    let (_, action) = open_step(&o, phase, OpenEvent::InstallFinished { path: None });
    assert!(matches!(action, OpenAction::Abort { kill_pid: None, error: OpenError::CommandNotFound(c) } if c == "opencode"));
    let (phase, _) = open_step(&o, OpenPhase::Installing, OpenEvent::InstallFinished { path: Some("/x/opencode".to_string()) });
    assert!(matches!(&phase, OpenPhase::Probing { command } if command == "/x/opencode"));
    let o = OpenOptions::default().command("custom");
    let (_, action) =
        open_step(&o, OpenPhase::Detecting, OpenEvent::CommandDetected { available: false, path: None });
    assert!(matches!(action, OpenAction::Abort { kill_pid: None, error: OpenError::CommandNotFound(c) } if c == "custom"));
    let (phase, _) = open_step(&o, OpenPhase::Detecting, OpenEvent::CommandDetected { available: true, path: None });
    assert!(matches!(&phase, OpenPhase::Probing { command } if command == "custom"));
}

#[test]
fn chat_content_and_stream_mode() {
    assert_eq!(chat_to_send(&Some("hi".to_string())), Some("hi"));
    assert_eq!(chat_to_send(&Some(String::new())), Some(""));
    assert_eq!(chat_to_send(&None), None);
    assert_eq!(stream_mode(true), StreamMode::StreamToStdout);
    assert_eq!(stream_mode(false), StreamMode::Silent);
}

#[test]
fn reply_after_waiting() {
    let messages = vec![
        message("user", vec![Part::text("q")]),
        message("Assistant", vec![Part::text("a1")]),
        message("user", vec![Part::text("q2")]),
    ];
    assert!(matches!(reply_after_wait(0, false, &messages), Ok(None)));
    assert!(matches!(reply_after_wait(5, false, &messages), Err(OpenError::WaitResponseTimeout { timeout_ms: 5 })));
    match reply_after_wait(5, true, &messages) {
        Ok(Some(m)) => assert_eq!(m.text_content(), "a1"),
        other => panic!("unexpected {:?}", other),
    }
    let empty_reply = vec![message("assistant", vec![])];
    assert!(matches!(reply_after_wait(5, true, &empty_reply), Ok(None)));
}

#[test]
fn phases_expect_their_events() {
    assert!(expects_event(&OpenPhase::Start, &OpenEvent::Begin));
    assert!(expects_event(&OpenPhase::Spawning, &OpenEvent::ServerSpawned { pid: 1 }));
    assert!(!expects_event(&OpenPhase::Spawning, &OpenEvent::Begin));
    assert!(!expects_event(&OpenPhase::Finished, &OpenEvent::Begin));
}
