//! Opening OpenCode: options, the handle of a started server, and the
//! decisions of the open and chat flows. The flows' outside work (probing,
//! spawning, sleeping, HTTP) is done by the caller, which feeds each outcome
//! back as an event.

use vstd::prelude::*;
use std::path::PathBuf;
use crate::session::{fetch_last_assistant_message, reply_index, MessageListItem};
use crate::text::{decimal, decimal_string, str_eq};

verus! {

/// Interval between readiness probes of a spawned server, in milliseconds.
pub const SERVER_POLL_INTERVAL_MS: u64 = 500;

/// Options of `OpenCode::open`.
#[derive(Debug, Clone)]
pub struct OpenOptions {
    /// Server hostname (default `127.0.0.1`).
    pub hostname: String,
    /// Server port (default 4096).
    pub port: u16,
    /// Whether to start the server when none is running (default true).
    pub auto_start: bool,
    /// Command that runs the server (default `opencode`).
    pub command: String,
    /// Extra arguments for `opencode serve`.
    pub server_args: Vec<String>,
    /// Timeout of a health probe, in milliseconds.
    pub health_check_timeout_ms: u64,
    /// How long to wait for a spawned server to become ready, in milliseconds.
    pub startup_timeout_ms: u64,
    /// Project directory: the server's working directory and the sessions' directory.
    pub project_path: Option<PathBuf>,
    /// Initial chat message; when set, a session is created and this message sent.
    pub chat_content: Option<String>,
    /// Working directory of the server process (`project_path` takes precedence).
    pub working_directory: Option<PathBuf>,
    /// Whether to install opencode when it is not found.
    pub auto_install: bool,
    /// How long to wait for the assistant's reply after sending, in milliseconds.
    pub wait_for_response_ms: u64,
    /// Whether to stream the assistant's output as it arrives.
    pub stream_output: bool,
}

impl Default for OpenOptions {
    fn default() -> (r: OpenOptions)
        ensures
            r.hostname@ == "127.0.0.1"@,
            r.port == 4096,
            r.auto_start,
            r.command@ == "opencode"@,
            r.server_args@.len() == 0,
            r.health_check_timeout_ms == 3000,
            r.startup_timeout_ms == 30000,
            r.project_path is None,
            r.chat_content is None,
            r.working_directory is None,
            r.auto_install,
            r.wait_for_response_ms == 300000,
            !r.stream_output,
    {
        OpenOptions {
            hostname: String::from_str("127.0.0.1"),
            port: 4096,
            auto_start: true,
            command: String::from_str("opencode"),
            server_args: Vec::new(),
            health_check_timeout_ms: 3000,
            startup_timeout_ms: 30000,
            project_path: None,
            chat_content: None,
            working_directory: None,
            auto_install: true,
            wait_for_response_ms: 300000,
            stream_output: false,
        }
    }
}

impl OpenOptions {
    /// Sets the hostname.
    pub fn hostname(self, hostname: &str) -> (r: OpenOptions)
        ensures
            r.hostname@ == hostname@,
            r == (OpenOptions { hostname: r.hostname, ..self }),
    {
        OpenOptions { hostname: String::from_str(hostname), ..self }
    }

    /// Sets the port.
    pub fn port(self, port: u16) -> (r: OpenOptions)
        ensures
            r == (OpenOptions { port, ..self }),
    {
        OpenOptions { port, ..self }
    }

    /// Sets whether to start the server when none is running.
    pub fn auto_start(self, auto_start: bool) -> (r: OpenOptions)
        ensures
            r == (OpenOptions { auto_start, ..self }),
    {
        OpenOptions { auto_start, ..self }
    }

    /// Sets the command that runs the server.
    pub fn command(self, command: &str) -> (r: OpenOptions)
        ensures
            r.command@ == command@,
            r == (OpenOptions { command: r.command, ..self }),
    {
        OpenOptions { command: String::from_str(command), ..self }
    }

    /// Sets the extra server arguments.
    pub fn server_args(self, args: Vec<String>) -> (r: OpenOptions)
        ensures
            r == (OpenOptions { server_args: args, ..self }),
    {
        OpenOptions { server_args: args, ..self }
    }

    /// Sets the health probe timeout, in milliseconds.
    pub fn health_check_timeout_ms(self, ms: u64) -> (r: OpenOptions)
        ensures
            r == (OpenOptions { health_check_timeout_ms: ms, ..self }),
    {
        OpenOptions { health_check_timeout_ms: ms, ..self }
    }

    /// Sets the startup timeout, in milliseconds.
    pub fn startup_timeout_ms(self, ms: u64) -> (r: OpenOptions)
        ensures
            r == (OpenOptions { startup_timeout_ms: ms, ..self }),
    {
        OpenOptions { startup_timeout_ms: ms, ..self }
    }

    /// Sets the project directory.
    pub fn project_path(self, path: PathBuf) -> (r: OpenOptions)
        ensures
            r == (OpenOptions { project_path: Some(path), ..self }),
    {
        OpenOptions { project_path: Some(path), ..self }
    }

    /// Sets the initial chat message.
    pub fn chat_content(self, content: &str) -> (r: OpenOptions)
        ensures
            r.chat_content matches Some(c) && c@ == content@,
            r == (OpenOptions { chat_content: r.chat_content, ..self }),
    {
        OpenOptions { chat_content: Some(String::from_str(content)), ..self }
    }

    /// Sets the server's working directory.
    pub fn working_directory(self, dir: Option<PathBuf>) -> (r: OpenOptions)
        ensures
            r == (OpenOptions { working_directory: dir, ..self }),
    {
        OpenOptions { working_directory: dir, ..self }
    }

    /// Sets whether to install opencode when it is not found.
    pub fn auto_install(self, enable: bool) -> (r: OpenOptions)
        ensures
            r == (OpenOptions { auto_install: enable, ..self }),
    {
        OpenOptions { auto_install: enable, ..self }
    }

    /// Sets how long to wait for the reply, in milliseconds.
    pub fn wait_for_response_ms(self, ms: u64) -> (r: OpenOptions)
        ensures
            r == (OpenOptions { wait_for_response_ms: ms, ..self }),
    {
        OpenOptions { wait_for_response_ms: ms, ..self }
    }

    /// Sets whether to stream the assistant's output.
    pub fn stream_output(self, enable: bool) -> (r: OpenOptions)
        ensures
            r == (OpenOptions { stream_output: enable, ..self }),
    {
        OpenOptions { stream_output: enable, ..self }
    }

    /// `http://<hostname>:<port>`.
    pub open spec fn base_url_view(self) -> Seq<char> {
        "http://"@ + self.hostname@ + ":"@ + decimal(self.port as nat)
    }

    /// The server's base URL, `http://<hostname>:<port>`.
    pub fn base_url(&self) -> (r: String)
        ensures
            r@ == self.base_url_view(),
    {
        let mut s = String::from_str("http://");
        s.append(self.hostname.as_str());
        s.append(":");
        let port = decimal_string(self.port as u64);
        s.append(port.as_str());
        s
    }

    /// The working directory: the project path, else the configured working directory.
    pub fn working_dir(&self) -> (r: Option<&PathBuf>)
        ensures
            r == match self.project_path {
                Some(p) => Some(&p),
                None => match self.working_directory {
                    Some(w) => Some(&w),
                    None => None::<&PathBuf>,
                },
            },
    {
        match &self.project_path {
            Some(p) => Some(p),
            None => match &self.working_directory {
                Some(w) => Some(w),
                None => None,
            },
        }
    }
}

/// Handle to a server process started by the SDK.
#[derive(Debug)]
pub struct ServerHandle {
    pid: u32,
}

impl ServerHandle {
    /// The process id.
    pub closed spec fn id(self) -> u32 {
        self.pid
    }

    /// A handle for process `pid`.
    pub fn new(pid: u32) -> (r: ServerHandle)
        ensures
            r.id() == pid,
    {
        ServerHandle { pid }
    }

    /// The process id.
    pub fn pid(&self) -> (r: u32)
        ensures
            r == self.id(),
    {
        self.pid
    }
}

/// The OpenCode SDK namespace.
#[derive(Debug)]
pub struct OpenCode;

/// Why opening or chatting failed.
#[derive(Debug)]
pub enum OpenError {
    /// The server command was not found (and could not be installed).
    CommandNotFound(String),
    /// A spawned server did not become ready in time.
    StartupTimeout { url: String, timeout_ms: u64 },
    /// The assistant's reply did not complete in time.
    WaitResponseTimeout { timeout_ms: u64 },
}

/// Where the open flow stands.
#[derive(Debug)]
pub enum OpenPhase {
    /// Nothing done yet.
    Start,
    /// Waiting for the command lookup.
    Detecting,
    /// Waiting for the installation attempt.
    Installing,
    /// Waiting for the first health probe; `command` will start the server.
    Probing { command: String },
    /// Waiting for the spawned server's process id.
    Spawning,
    /// Waiting for a readiness probe of server `pid`; `elapsed_ms` have passed since spawning.
    Polling { pid: u32, elapsed_ms: u64 },
    /// The flow has ended.
    Finished,
}

/// What the caller observed.
#[derive(Debug)]
pub enum OpenEvent {
    /// The flow begins.
    Begin,
    /// The command lookup's outcome, with the command's full path when found.
    CommandDetected { available: bool, path: Option<String> },
    /// The installation's outcome: the installed command's path on success.
    InstallFinished { path: Option<String> },
    /// The health probe's outcome.
    HealthChecked { healthy: bool },
    /// The server process was started.
    ServerSpawned { pid: u32 },
}

/// What the caller does next.
#[derive(Debug)]
pub enum OpenAction {
    /// Look up the command.
    DetectCommand { command: String },
    /// Try to install opencode.
    Install,
    /// Probe the server's health.
    CheckHealth,
    /// Start the server with `command`.
    Spawn { command: String },
    /// Wait `ms` milliseconds, then probe the server's health.
    SleepThenCheckHealth { ms: u64 },
    /// Connect to the running server (and chat); `server_pid` is set when the flow started it.
    Connect { server_pid: Option<u32> },
    /// Stop with `error`, first killing process `kill_pid` when set.
    Abort { kill_pid: Option<u32>, error: OpenError },
}

/// The event `phase` waits for.
pub open spec fn expects(phase: OpenPhase, event: OpenEvent) -> bool {
    match phase {
        OpenPhase::Start => event is Begin,
        OpenPhase::Detecting => event is CommandDetected,
        OpenPhase::Installing => event is InstallFinished,
        OpenPhase::Probing { .. } => event is HealthChecked,
        OpenPhase::Spawning => event is ServerSpawned,
        OpenPhase::Polling { .. } => event is HealthChecked,
        OpenPhase::Finished => false,
    }
}

/// Elapsed time after one more poll interval (it cannot exceed `u64::MAX`).
pub open spec fn after_interval(elapsed_ms: u64) -> u64 {
    if elapsed_ms as int + SERVER_POLL_INTERVAL_MS <= u64::MAX {
        (elapsed_ms + SERVER_POLL_INTERVAL_MS) as u64
    } else {
        u64::MAX
    }
}

/// Whether `phase` waits for `event` (see [`expects`]); a driver checks this
/// before each [`open_step`].
pub fn expects_event(phase: &OpenPhase, event: &OpenEvent) -> (r: bool)
    ensures
        r == expects(*phase, *event),
{
    match phase {
        OpenPhase::Start => matches!(event, OpenEvent::Begin),
        OpenPhase::Detecting => matches!(event, OpenEvent::CommandDetected { .. }),
        OpenPhase::Installing => matches!(event, OpenEvent::InstallFinished { .. }),
        OpenPhase::Probing { .. } => matches!(event, OpenEvent::HealthChecked { .. }),
        OpenPhase::Spawning => matches!(event, OpenEvent::ServerSpawned { .. }),
        OpenPhase::Polling { .. } => matches!(event, OpenEvent::HealthChecked { .. }),
        OpenPhase::Finished => false,
    }
}

/// The startup-timeout error for `options`.
pub open spec fn is_startup_timeout(e: OpenError, options: OpenOptions) -> bool {
    e matches OpenError::StartupTimeout { url, timeout_ms }
        && url@ == options.base_url_view() && timeout_ms == options.startup_timeout_ms
}

/// The startup-timeout error for `options`.
fn startup_timeout(options: &OpenOptions) -> (e: OpenError)
    ensures
        is_startup_timeout(e, *options),
{
    OpenError::StartupTimeout { url: options.base_url(), timeout_ms: options.startup_timeout_ms }
}

/// One step of `OpenCode::open`.
///
/// Without `auto_start`, connect right away. Otherwise look up the command;
/// when it is missing and is the default `opencode` with `auto_install`, try
/// to install it; when still missing, fail with `CommandNotFound`. Probe the
/// server: a healthy server is connected to as is. Otherwise start it, then
/// every [`SERVER_POLL_INTERVAL_MS`] probe it until it is healthy (connect,
/// owning the process) or `startup_timeout_ms` have passed (kill it and fail
/// with `StartupTimeout`).
pub fn open_step(options: &OpenOptions, phase: OpenPhase, event: OpenEvent) -> (r: (OpenPhase, OpenAction))
    requires
        expects(phase, event),
    ensures
        match (phase, event) {
            (OpenPhase::Start, _) => if !options.auto_start {
                r.0 is Finished && r.1 == OpenAction::Connect { server_pid: None }
            } else {
                r.0 is Detecting && (r.1 matches OpenAction::DetectCommand { command } && command@ == options.command@)
            },
            (OpenPhase::Detecting, OpenEvent::CommandDetected { available, path }) => if available {
                r.1 is CheckHealth && (r.0 matches OpenPhase::Probing { command } && command@ == match path {
                    Some(p) => p@,
                    None => options.command@,
                })
            } else if options.auto_install && options.command@ == "opencode"@ {
                r.0 is Installing && r.1 is Install
            } else {
                r.0 is Finished && (r.1 matches OpenAction::Abort { kill_pid: None, error: OpenError::CommandNotFound(c) }
                    && c@ == options.command@)
            },
            (OpenPhase::Installing, OpenEvent::InstallFinished { path }) => match path {
                Some(p) => r.1 is CheckHealth && (r.0 matches OpenPhase::Probing { command } && command@ == p@),
                None => r.0 is Finished && (r.1 matches OpenAction::Abort { kill_pid: None, error: OpenError::CommandNotFound(c) }
                    && c@ == options.command@),
            },
            (OpenPhase::Probing { command }, OpenEvent::HealthChecked { healthy }) => if healthy {
                r.0 is Finished && r.1 == OpenAction::Connect { server_pid: None }
            } else {
                r.0 is Spawning && (r.1 matches OpenAction::Spawn { command: c } && c@ == command@)
            },
            (OpenPhase::Spawning, OpenEvent::ServerSpawned { pid }) => if 0 < options.startup_timeout_ms {
                r.0 == OpenPhase::Polling { pid, elapsed_ms: after_interval(0) }
                    && r.1 == OpenAction::SleepThenCheckHealth { ms: SERVER_POLL_INTERVAL_MS }
            } else {
                r.0 is Finished && (r.1 matches OpenAction::Abort { kill_pid, error }
                    && kill_pid == Some(pid) && is_startup_timeout(error, *options))
            },
            (OpenPhase::Polling { pid, elapsed_ms }, OpenEvent::HealthChecked { healthy }) => if healthy {
                r.0 is Finished && r.1 == OpenAction::Connect { server_pid: Some(pid) }
            } else if elapsed_ms < options.startup_timeout_ms {
                r.0 == OpenPhase::Polling { pid, elapsed_ms: after_interval(elapsed_ms) }
                    && r.1 == OpenAction::SleepThenCheckHealth { ms: SERVER_POLL_INTERVAL_MS }
            } else {
                r.0 is Finished && (r.1 matches OpenAction::Abort { kill_pid, error }
                    && kill_pid == Some(pid) && is_startup_timeout(error, *options))
            },
            _ => false,
        },
        // The server is started only after a failed probe, and only once.
        r.1 is Spawn ==> phase is Probing && r.0 is Spawning,
        // Only a process the flow started is ever killed.
        r.1 matches OpenAction::Abort { kill_pid: Some(p), .. } ==> (
            (phase is Spawning && event == OpenEvent::ServerSpawned { pid: p })
            || (phase matches OpenPhase::Polling { pid, .. } && pid == p)),
        // The flow owns the server it connects to only when it started it.
        r.1 matches OpenAction::Connect { server_pid: Some(p) } ==> (
            phase matches OpenPhase::Polling { pid, .. } && pid == p),
        // Polling time only grows, and polling ends once the startup timeout has passed.
        r.0 matches OpenPhase::Polling { elapsed_ms: e2, .. } ==> e2 >= SERVER_POLL_INTERVAL_MS && (
            phase matches OpenPhase::Polling { elapsed_ms: e1, .. } ==> e1 < e2 || e1 == u64::MAX),
        phase matches OpenPhase::Polling { elapsed_ms: e, .. } && e >= options.startup_timeout_ms
            ==> r.0 is Finished,
{
    match (phase, event) {
        (OpenPhase::Start, _) => {
            if !options.auto_start {
                (OpenPhase::Finished, OpenAction::Connect { server_pid: None })
            } else {
                (OpenPhase::Detecting, OpenAction::DetectCommand { command: options.command.clone() })
            }
        },
        (OpenPhase::Detecting, OpenEvent::CommandDetected { available, path }) => {
            if available {
                let command = match path {
                    Some(p) => p,
                    None => options.command.clone(),
                };
                (OpenPhase::Probing { command }, OpenAction::CheckHealth)
            } else if options.auto_install && str_eq(options.command.as_str(), "opencode") {
                (OpenPhase::Installing, OpenAction::Install)
            } else {
                (
                    OpenPhase::Finished,
                    OpenAction::Abort { kill_pid: None, error: OpenError::CommandNotFound(options.command.clone()) },
                )
            }
        },
        (OpenPhase::Installing, OpenEvent::InstallFinished { path }) => match path {
            Some(p) => (OpenPhase::Probing { command: p }, OpenAction::CheckHealth),
            None => (
                OpenPhase::Finished,
                OpenAction::Abort { kill_pid: None, error: OpenError::CommandNotFound(options.command.clone()) },
            ),
        },
        (OpenPhase::Probing { command }, OpenEvent::HealthChecked { healthy }) => {
            if healthy {
                (OpenPhase::Finished, OpenAction::Connect { server_pid: None })
            } else {
                (OpenPhase::Spawning, OpenAction::Spawn { command })
            }
        },
        (OpenPhase::Spawning, OpenEvent::ServerSpawned { pid }) => {
            if 0 < options.startup_timeout_ms {
                (
                    OpenPhase::Polling { pid, elapsed_ms: SERVER_POLL_INTERVAL_MS },
                    OpenAction::SleepThenCheckHealth { ms: SERVER_POLL_INTERVAL_MS },
                )
            } else {
                (OpenPhase::Finished, OpenAction::Abort { kill_pid: Some(pid), error: startup_timeout(options) })
            }
        },
        (OpenPhase::Polling { pid, elapsed_ms }, OpenEvent::HealthChecked { healthy }) => {
            if healthy {
                (OpenPhase::Finished, OpenAction::Connect { server_pid: Some(pid) })
            } else if elapsed_ms < options.startup_timeout_ms {
                let next = elapsed_ms.saturating_add(SERVER_POLL_INTERVAL_MS);
                (
                    OpenPhase::Polling { pid, elapsed_ms: next },
                    OpenAction::SleepThenCheckHealth { ms: SERVER_POLL_INTERVAL_MS },
                )
            } else {
                (OpenPhase::Finished, OpenAction::Abort { kill_pid: Some(pid), error: startup_timeout(options) })
            }
        },
        _ => {
            // No other pairing satisfies `expects`.
            proof {
                assert(false);
            }
            (OpenPhase::Finished, OpenAction::CheckHealth)
        },
    }
}

/// How the assistant's text is handled while waiting for the reply.
#[derive(Debug, Clone, Copy, PartialEq, Eq, Structural)]
pub enum StreamMode {
    /// Print each text chunk as it arrives.
    StreamToStdout,
    /// Wait silently.
    Silent,
}

/// The message to send: the chat content whenever it is set (an empty
/// message included).
pub fn chat_to_send(chat_content: &Option<String>) -> (r: Option<&str>)
    ensures
        match *chat_content {
            Some(c) => r matches Some(s) && s@ == c@,
            None => r is None,
        },
{
    match chat_content {
        Some(s) => Some(s.as_str()),
        None => None,
    }
}

/// How to wait for the reply: streaming to stdout when `stream_output`, silently otherwise.
pub fn stream_mode(stream_output: bool) -> (r: StreamMode)
    ensures
        r == if stream_output { StreamMode::StreamToStdout } else { StreamMode::Silent },
{
    if stream_output {
        StreamMode::StreamToStdout
    } else {
        StreamMode::Silent
    }
}

/// After sending the message: with no wait (`wait_for_response_ms == 0`) there is no reply;
/// otherwise, when the completion event came in time, the reply is the last
/// assistant message with content among `messages`, and when it did not the
/// wait fails with `WaitResponseTimeout`.
pub fn reply_after_wait(
    wait_for_response_ms: u64,
    completed_in_time: bool,
    messages: &[MessageListItem],
) -> (r: Result<Option<MessageListItem>, OpenError>)
    ensures
        wait_for_response_ms == 0 ==> r matches Ok(None),
        wait_for_response_ms > 0 && !completed_in_time ==> r == Err::<Option<MessageListItem>, OpenError>(
            OpenError::WaitResponseTimeout { timeout_ms: wait_for_response_ms },
        ),
        wait_for_response_ms > 0 && completed_in_time ==> match reply_index(messages@) {
            Some(i) => r matches Ok(Some(m)) && m.info.role@ == messages@[i].info.role@
                && m.parts_view() == messages@[i].parts_view(),
            None => r matches Ok(None),
        },
{
    if wait_for_response_ms == 0 {
        return Ok(None);
    }
    if !completed_in_time {
        return Err(OpenError::WaitResponseTimeout { timeout_ms: wait_for_response_ms });
    }
    Ok(fetch_last_assistant_message(messages))
}

} // verus!
