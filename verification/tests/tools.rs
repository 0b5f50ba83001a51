use opencode_sdk::json::{Json, JsonNumber};
use opencode_sdk::langgraph::error::ToolError;
use opencode_sdk::langgraph::tool::{
    check_relative_path, check_within_base, file_op, file_request, http_method, http_output, prepare_http_call, FileOp,
    chain_link, file_action, file_target, FileOpsTool, HttpMethod, HttpRequestTool, MockHttpFetcher, Tool, ToolChain, ToolRegistry,
};
use std::path::PathBuf;
use std::sync::Arc;

fn s(v: &str) -> Json {
    Json::String(v.to_string())
}

fn obj(members: Vec<(&str, Json)>) -> Json {
    Json::Object(members.into_iter().map(|(k, v)| (k.to_string(), v)).collect())
}

/// A calculator that adds the integers of an `a+b` expression.
struct CalculatorTool;

impl Tool for CalculatorTool {
    fn name(&self) -> &str {
        "calculator"
    }

    fn description(&self) -> &str {
        "adds two integers"
    }

    fn parameters_schema(&self) -> Json {
        obj(vec![("type", s("object"))])
    }

    fn execute(&self, args: Json) -> Result<Json, ToolError> {
        let expr = match args.get("expression").and_then(|e| e.as_str()) {
            Some(e) => e.to_string(),
            None => return Err(ToolError::ValidationFailed("missing expression".to_string())),
        };
        let mut total: u64 = 0;
        for term in expr.split('+') {
            total += term.trim().parse::<u64>().map_err(|e| ToolError::ExecutionFailed(e.to_string()))?;
        }
        Ok(Json::Number(JsonNumber::PosInt(total)))
    }
}

#[test]
fn tool_chain_single_tool() {
    let mut reg = ToolRegistry::new();
    reg.register(Box::new(CalculatorTool));
    let registry = Arc::new(reg);
    let chain = ToolChain::new(registry, vec!["calculator".into()]);
    let args = obj(vec![("expression", s("1+2"))]);
    let out = chain.execute(args).unwrap();
    assert_eq!(out, Json::Number(JsonNumber::PosInt(3)));
}

#[test]
fn tool_chain_errors() {
    let chain = ToolChain::new(Arc::new(ToolRegistry::new()), vec![]);
    assert_eq!(chain.execute(s("unchanged")).unwrap(), s("unchanged"));
    assert_eq!(chain.parameters_schema(), obj(vec![("type", s("object")), ("properties", obj(vec![])), ("required", Json::Array(vec![]))]));
    let chain = ToolChain::new(Arc::new(ToolRegistry::new()), vec!["nope".to_string()]);
    assert!(matches!(chain.execute(Json::Null), Err(ToolError::NotFound(m)) if m == "nope"));
    let reg = ToolRegistry::new();
    assert!(matches!(reg.execute("x", Json::Null), Err(ToolError::NotFound(m)) if m == "x"));
}

#[test]
fn http_request_tool_mock() {
    let fetcher = MockHttpFetcher::new(r#"{"ok":true}"#);
    let tool = HttpRequestTool::new(Box::new(fetcher));
    let args = obj(vec![("url", s("https://example.com"))]);
    let out = tool.execute(args).unwrap();
    assert!(out.get("body").is_some());
    assert_eq!(out.get("body").and_then(|b| b.as_str()), Some(r#"{"ok":true}"#));
}

#[test]
fn http_request_tool_missing_url() {
    let fetcher = MockHttpFetcher::new("");
    let tool = HttpRequestTool::new(Box::new(fetcher));
    let args = obj(vec![]);
    let err = tool.execute(args).unwrap_err();
    assert!(matches!(err, ToolError::ValidationFailed(_)));
}

#[test]
fn http_call_uppercases_method_and_keeps_string_headers() {
    let args = obj(vec![
        ("url", s("u")),
        ("method", s("post")),
        ("headers", obj(vec![("a", s("1")), ("b", Json::Bool(true)), ("c", s("3"))])),
        ("body", s("x")),
    ]);
    let call = prepare_http_call(&args).unwrap();
    assert_eq!(call.method, "POST");
    assert_eq!(call.headers, vec![("a".to_string(), "1".to_string()), ("c".to_string(), "3".to_string())]);
    assert_eq!(call.body.as_deref(), Some("x"));
    let call = prepare_http_call(&obj(vec![("url", s("u"))])).unwrap();
    assert_eq!(call.method, "GET");
    assert!(call.headers.is_empty());
    assert_eq!(
        http_output("b"),
        obj(vec![("status", s("ok")), ("body", s("b"))])
    );
}

#[test]
fn file_ops_reject_dotdot() {
    let dir = PathBuf::from("langgraph_file_ops_test2");
    let tool = FileOpsTool::new(dir.clone());
    assert_eq!(tool.base_dir(), &dir);
    let args = obj(vec![("operation", s("read")), ("path", s("../etc/passwd"))]);
    let (op, path) = file_request(&args).unwrap();
    assert_eq!(op, "read");
    let err = check_relative_path(&path).unwrap_err();
    assert!(matches!(err, ToolError::ValidationFailed(_)));
}

#[test]
fn file_request_and_operations() {
    let args = obj(vec![("operation", s("WRITE")), ("path", s("/a/b.txt")), ("content", s("hi"))]);
    let (op, path) = file_request(&args).unwrap();
    assert_eq!(op, "write");
    assert_eq!(check_relative_path(&path).unwrap(), "a/b.txt");
    assert!(matches!(file_op(&op, &args), Ok(FileOp::Write(c)) if c == "hi"));
    assert!(matches!(file_op("list", &args), Ok(FileOp::List)));
    assert!(matches!(file_op("exists", &args), Ok(FileOp::Exists)));
    assert!(matches!(file_op("read", &args), Ok(FileOp::Read)));
    assert!(matches!(file_op("copy", &args), Err(ToolError::ValidationFailed(m)) if m == "unknown operation: copy"));
    assert!(matches!(file_request(&obj(vec![("path", s("p"))])),
        Err(ToolError::ValidationFailed(m)) if m == "missing or non-string 'operation'"));
    assert!(matches!(file_request(&obj(vec![("operation", s("read"))])),
        Err(ToolError::ValidationFailed(m)) if m == "missing or non-string 'path'"));
}

#[test]
fn resolved_path_must_stay_under_base() {
    let base = vec!["/".to_string(), "tmp".to_string()];
    let inside = vec!["/".to_string(), "tmp".to_string(), "x".to_string()];
    let outside = vec!["/".to_string(), "etc".to_string()];
    assert!(check_within_base(&base, &inside).is_ok());
    assert!(matches!(check_within_base(&base, &outside),
        Err(ToolError::ValidationFailed(m)) if m == "path escapes base directory"));
}

#[test]
fn file_tool_schema_names_operations() {
    let tool = FileOpsTool::new(PathBuf::from("."));
    let schema = tool.parameters_schema();
    assert_eq!(schema.get("type").and_then(|t| t.as_str()), Some("object"));
    assert!(schema.get("properties").and_then(|p| p.get("operation")).is_some());
    assert_eq!(tool.name(), "file_ops");
}

#[test]
fn fetch_methods() {
    assert_eq!(http_method("GET").unwrap(), HttpMethod::Get);
    assert_eq!(http_method("HEAD").unwrap(), HttpMethod::Head);
    assert_eq!(http_method("PATCH").unwrap(), HttpMethod::Patch);
    assert!(matches!(http_method("get"), Err(ToolError::ExecutionFailed(m)) if m == "unsupported method: get"));
    assert!(matches!(http_method("TRACE"), Err(ToolError::ExecutionFailed(m)) if m == "unsupported method: TRACE"));
}

/// A tool that returns its `input` argument.
struct InputTool;

impl Tool for InputTool {
    fn name(&self) -> &str {
        "input"
    }

    fn description(&self) -> &str {
        "returns its input"
    }

    fn parameters_schema(&self) -> Json {
        obj(vec![])
    }

    fn execute(&self, args: Json) -> Result<Json, ToolError> {
        Ok(obj(vec![("got", args.get("input").cloned_json())]))
    }
}

trait ClonedJson {
    fn cloned_json(&self) -> Json;
}

impl ClonedJson for Option<&Json> {
    fn cloned_json(&self) -> Json {
        match self {
            Some(j) => j.duplicate(),
            None => Json::Null,
        }
    }
}

#[test]
fn two_tool_chain_passes_output_as_input() {
    let mut reg = ToolRegistry::new();
    reg.register(Box::new(CalculatorTool));
    reg.register(Box::new(InputTool));
    let chain = ToolChain::new(Arc::new(reg), vec!["calculator".to_string(), "input".to_string()]);
    let out = chain.execute(obj(vec![("expression", s("2+5"))])).unwrap();
    assert_eq!(out, obj(vec![("got", Json::Number(JsonNumber::PosInt(7)))]));
    assert_eq!(chain_link(s("x")), obj(vec![("input", s("x"))]));
}

#[test]
fn registering_same_name_replaces() {
    let mut reg = ToolRegistry::new();
    reg.register(Box::new(InputTool));
    reg.register(Box::new(InputTool));
    assert!(reg.get("input").is_some());
    assert!(reg.get("calculator").is_none());
    assert_eq!(reg.execute("input", obj(vec![("input", s("v"))])).unwrap(), obj(vec![("got", s("v"))]));
}

#[test]
fn http_headers_keep_the_last_value_of_a_name() {
    let args = obj(vec![
        ("url", s("u")),
        ("headers", obj(vec![("a", s("1")), ("b", s("2")), ("a", s("3")), ("b", Json::Null)])),
    ]);
    let call = prepare_http_call(&args).unwrap();
    assert_eq!(call.headers, vec![("a".to_string(), "3".to_string()), ("b".to_string(), "2".to_string())]);
}

#[test]
fn file_requests_are_checked_before_any_file_access() {
    let args = obj(vec![("operation", s("READ")), ("path", s("/docs/a.txt"))]);
    assert_eq!(file_target(&args).unwrap(), ("read".to_string(), "docs/a.txt".to_string()));
    let bad = obj(vec![("operation", s("read")), ("path", s("a/../b"))]);
    assert!(matches!(file_target(&bad), Err(ToolError::ValidationFailed(m)) if m == "path must not contain '..'"));
    let base = vec!["/".to_string(), "srv".to_string()];
    let inside = vec!["/".to_string(), "srv".to_string(), "a".to_string()];
    let outside = vec!["/".to_string(), "etc".to_string()];
    assert!(matches!(file_action("read", &args, &base, &inside), Ok(FileOp::Read)));
    assert!(matches!(file_action("read", &args, &base, &outside),
        Err(ToolError::ValidationFailed(m)) if m == "path escapes base directory"));
    assert!(matches!(file_action("move", &args, &base, &inside),
        Err(ToolError::ValidationFailed(m)) if m == "unknown operation: move"));
}
