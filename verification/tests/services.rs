use opencode_sdk::agora::{echo_step, EchoAction, Incoming, Outgoing};
use opencode_sdk::client::{find_file_query, worktree_create_body, worktree_directory_body, ClientBuilder};
use opencode_sdk::json::{Json, JsonNumber};
use opencode_sdk::log_config::{log_dir_choice, LogDir};
use opencode_sdk::zoekt::{
    choose_transport, list_body, list_query, read_response, search_args, search_body, tool_result_from_zoekt, zoekt_list_descriptor, zoekt_search_descriptor,
    zoekt_base_url, zoekt_basic_auth, Transport, ZoektClient, ZoektClientError,
};
use std::path::PathBuf;
use std::time::Duration;

fn s(v: &str) -> Json {
    Json::String(v.to_string())
}

fn obj(members: Vec<(&str, Json)>) -> Json {
    Json::Object(members.into_iter().map(|(k, v)| (k.to_string(), v)).collect())
}

fn pos(n: u64) -> Json {
    Json::Number(JsonNumber::PosInt(n))
}

#[test]
fn client_builder_defaults_and_setters() {
    let b = ClientBuilder::new("http://h:1");
    assert_eq!(b.base_url(), "http://h:1");
    assert_eq!(b.timeout_setting(), Some(Duration::from_secs(30)));
    assert_eq!(b.max_idle_setting(), None);
    let b = b.timeout(Duration::from_millis(5)).pool_max_idle_per_host(4).pool_idle_timeout(Some(Duration::from_secs(1)));
    assert_eq!(b.timeout_setting(), Some(Duration::from_millis(5)));
    assert_eq!(b.max_idle_setting(), Some(4));
    assert_eq!(b.idle_timeout_setting(), Some(Duration::from_secs(1)));
}

#[test]
fn find_file_query_parameters() {
    let q = find_file_query("main", Some("true"), None, Some(25));
    assert_eq!(
        q,
        vec![
            ("query".to_string(), "main".to_string()),
            ("dirs".to_string(), "true".to_string()),
            ("limit".to_string(), "25".to_string()),
        ]
    );
    assert_eq!(find_file_query("x", None, Some("file"), None).len(), 2);
}

#[test]
fn worktree_bodies() {
    assert_eq!(worktree_create_body(Some("n"), None), obj(vec![("name", s("n"))]));
    assert_eq!(worktree_create_body(None, Some("c")), obj(vec![("startCommand", s("c"))]));
    assert_eq!(worktree_create_body(None, None), obj(vec![]));
    assert_eq!(worktree_directory_body("/d"), obj(vec![("directory", s("/d"))]));
}

#[test]
fn zoekt_configuration() {
    assert_eq!(zoekt_base_url(None), "http://127.0.0.1:6070");
    assert_eq!(zoekt_base_url(Some("http://z".to_string())), "http://z");
    assert!(zoekt_basic_auth(Some("u".to_string()), None).is_none());
    assert_eq!(zoekt_basic_auth(Some("u".to_string()), Some("p".to_string())), Some(("u".to_string(), "p".to_string())));
    let c = ZoektClient::new("http://z:1//".to_string(), None);
    assert_eq!(c.base_url(), "http://z:1");
    assert_eq!(c.search_url(), "http://z:1/api/search");
    assert_eq!(c.list_url(), "http://z:1/api/list");
    assert!(c.basic_auth().is_none());
    let c = ZoektClient::from_env_values(None, Some("u".to_string()), Some("p".to_string()));
    assert_eq!(c.base_url(), "http://127.0.0.1:6070");
    assert_eq!(c.basic_auth(), Some(("u", "p")));
    let c = ZoektClient::from_env_values(Some("http://x/".to_string()), None, Some("p".to_string()));
    assert_eq!(c.base_url(), "http://x/");
    assert!(c.basic_auth().is_none());
}

#[test]
fn zoekt_request_bodies() {
    let body = search_body("foo", Some(vec![1, 2]), Some(obj(vec![("NumContextLines", pos(3))])));
    assert_eq!(
        body,
        obj(vec![
            ("Q", s("foo")),
            ("RepoIDs", Json::Array(vec![pos(1), pos(2)])),
            ("Opts", obj(vec![("NumContextLines", pos(3))])),
        ])
    );
    assert_eq!(search_body("foo", None, None), obj(vec![("Q", s("foo"))]));
    assert_eq!(list_body("r", None), obj(vec![("Q", s("r"))]));
    assert_eq!(list_body("r", Some(obj(vec![]))), obj(vec![("Q", s("r")), ("Opts", obj(vec![]))]));
}

#[test]
fn zoekt_responses() {
    let ok = obj(vec![("Result", obj(vec![("Files", Json::Null)]))]);
    assert_eq!(read_response(true, &ok, "Result").unwrap(), obj(vec![("Files", Json::Null)]));
    assert_eq!(read_response(true, &ok, "List").unwrap(), Json::Null);
    let err = obj(vec![("Error", s("bad query"))]);
    assert!(matches!(read_response(false, &err, "Result"), Err(ZoektClientError::Api(m)) if m == "bad query"));
    assert!(matches!(read_response(false, &Json::Null, "Result"), Err(ZoektClientError::Api(m)) if m == "unknown error"));
    assert_eq!(ZoektClientError::Api("x".to_string()).message(), "Zoekt API error: x");
    assert_eq!(ZoektClientError::Request("y".to_string()).message(), "HTTP request failed: y");
    assert_eq!(tool_result_from_zoekt(Err(ZoektClientError::Api("x".to_string()))), Err("Zoekt API error: x".to_string()));
    assert_eq!(tool_result_from_zoekt(Ok(Json::Null)), Ok(Json::Null));
}

#[test]
fn zoekt_tool_arguments() {
    assert_eq!(search_args(None).unwrap_err(), "missing q");
    assert_eq!(search_args(Some(&obj(vec![("q", pos(1))]))).unwrap_err(), "missing q");
    let args = obj(vec![
        ("q", s("needle")),
        ("repo_ids", Json::Array(vec![pos(5), s("x"), pos(4294967297), Json::Number(JsonNumber::NegInt(-1))])),
        ("num_context_lines", pos(2)),
        ("max_doc_display_count", Json::Number(JsonNumber::NegInt(-3))),
    ]);
    let a = search_args(Some(&args)).unwrap();
    assert_eq!(a.q, "needle");
    assert_eq!(a.repo_ids, Some(vec![5, 1]));
    assert_eq!(
        a.opts,
        Some(obj(vec![("NumContextLines", pos(2)), ("MaxDocDisplayCount", Json::Number(JsonNumber::NegInt(-3)))]))
    );
    let a = search_args(Some(&obj(vec![("q", s("n")), ("repo_ids", Json::Array(vec![s("x")]))]))).unwrap();
    assert_eq!(a.repo_ids, None);
    assert_eq!(a.opts, None);
    assert_eq!(list_query(Some(&obj(vec![("q", s("repo:a"))]))), "repo:a");
    assert_eq!(list_query(Some(&s("q"))), "");
    assert_eq!(list_query(None), "");
}

#[test]
fn zoekt_transport_choice() {
    assert!(matches!(choose_transport(false, None), Transport::Stdio));
    assert!(matches!(choose_transport(true, Some("a".to_string())), Transport::Stdio));
    assert!(matches!(choose_transport(false, Some("0.0.0.0:8080".to_string())), Transport::Http(a) if a == "0.0.0.0:8080"));
}

#[test]
fn echo_protocol() {
    assert!(matches!(echo_step(Incoming::Text("hi".to_string())), EchoAction::Send(Outgoing::Text(t)) if t == "Echo: hi"));
    assert!(matches!(echo_step(Incoming::Ping(vec![1, 2])), EchoAction::Send(Outgoing::Pong(d)) if d == vec![1, 2]));
    assert!(matches!(echo_step(Incoming::Close), EchoAction::Stop));
    assert!(matches!(echo_step(Incoming::Error), EchoAction::Stop));
    assert!(matches!(echo_step(Incoming::Binary(vec![0])), EchoAction::Ignore));
    assert!(matches!(echo_step(Incoming::Pong(vec![])), EchoAction::Ignore));
}

#[test]
fn log_directory_choice() {
    assert!(matches!(log_dir_choice(Some(PathBuf::from("/l")), Some("x".to_string()), None), LogDir::Given(p) if p == PathBuf::from("/l")));
    assert!(matches!(log_dir_choice(None, Some("/x".to_string()), Some("/h".to_string())), LogDir::UnderDataHome(x) if x == "/x"));
    assert!(matches!(log_dir_choice(None, None, Some("/h".to_string())), LogDir::UnderHome(h) if h == "/h"));
    assert!(matches!(log_dir_choice(None, None, None), LogDir::Current));
}

#[test]
fn zoekt_tool_descriptors() {
    let search = zoekt_search_descriptor();
    assert_eq!(search.name, "zoekt_search");
    assert_eq!(search.title, "Zoekt code search");
    assert!(search.description.starts_with("Search code using Zoekt."));
    assert_eq!(search.input_schema.get("required"), Some(&Json::Array(vec![s("q")])));
    let props = search.input_schema.get("properties").unwrap();
    assert_eq!(props.get("repo_ids").and_then(|p| p.get("items")), Some(&obj(vec![("type", s("integer"))])));
    let list = zoekt_list_descriptor();
    assert_eq!(list.name, "zoekt_list");
    assert_eq!(list.title, "Zoekt list repositories");
    assert!(list.input_schema.get("properties").and_then(|p| p.get("q")).is_some());
}
