# opencode_sdk

A client SDK for the OpenCode server, with a small agent toolkit (LLM chat
agent, tools, actor messages), a Zoekt code-search client and an echo
WebSocket protocol. The logic is written in Verus and proved against its
contracts; the I/O around it is ordinary Rust.

## Layout

- `src/` — the verified library.
  - `json.rs`: a plain-value model of JSON documents.
  - `text.rs`: string predicates and transformations (infix search, trimming, decimal digits).
  - `event.rs`: which server events end an assistant turn and which carry text for a session.
  - `open.rs`: open options, and the decisions of the open flow (detect, install,
    probe, spawn, poll, connect) and of the chat flow, as a state machine.
  - `session.rs`, `reply_log.rs`: session messages, the choice of the assistant's reply, and what is reported of it.
  - `client.rs`: the client builder and the endpoints' query parameters and bodies.
  - `zoekt.rs`: Zoekt request bodies, reply reading and tool arguments.
  - `agora.rs`: the echo protocol.
  - `log_config.rs`: where the log file goes.
  - `langgraph/`: chat messages and requests, mock LLM clients, the chat agent,
    tools (registry, chain, file-tool rules, HTTP tool) and errors.
  - `sys.rs`: operating-system values the library carries (paths, times, durations).
- `tests/` — tests of the library.
- `app/` — the I/O: HTTP with `reqwest`, event streams, processes, files,
  WebSockets with `axum`, logging with `tracing`, and serde forms of the library's values.
