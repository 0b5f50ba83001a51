//! Configuration of the OpenCode server client and the plain values its
//! endpoints exchange.

use vstd::prelude::*;
use std::time::Duration;
use crate::sys::{seconds, seconds_span};
use crate::json::{member, Json, JsonView};
use crate::text::{decimal, decimal_string};

verus! {

/// Request timeout a new client builder starts with, in seconds.
pub const DEFAULT_TIMEOUT_SECS: u64 = 30;

/// Builder for configuring the OpenCode client: base URL, request timeout and
/// connection-pool settings.
#[derive(Debug)]
pub struct ClientBuilder {
    base_url: String,
    timeout: Option<Duration>,
    pool_max_idle_per_host: Option<usize>,
    pool_idle_timeout: Option<Duration>,
}

impl ClientBuilder {
    /// The server's base URL.
    pub closed spec fn url(self) -> Seq<char> {
        self.base_url@
    }

    /// The request timeout, if any.
    pub closed spec fn timeout_span(self) -> Option<Duration> {
        self.timeout
    }

    /// The pool's idle-connection limit per host, if any.
    pub closed spec fn max_idle(self) -> Option<usize> {
        self.pool_max_idle_per_host
    }

    /// How long idle sockets stay in the pool, if set.
    pub closed spec fn idle_timeout(self) -> Option<Duration> {
        self.pool_idle_timeout
    }

    /// A builder for `base_url` with the default 30-second request timeout and
    /// default pool settings (what `Client::builder` returns).
    pub fn new(base_url: &str) -> (r: ClientBuilder)
        ensures
            r.url() == base_url@,
            r.timeout_span() == Some(seconds_span(DEFAULT_TIMEOUT_SECS)),
            r.max_idle() is None,
            r.idle_timeout() is None,
    {
        ClientBuilder {
            base_url: String::from_str(base_url),
            timeout: Some(seconds(DEFAULT_TIMEOUT_SECS)),
            pool_max_idle_per_host: None,
            pool_idle_timeout: None,
        }
    }

    /// Sets the request timeout.
    pub fn timeout(self, timeout: Duration) -> (r: ClientBuilder)
        ensures
            r.url() == self.url(),
            r.timeout_span() == Some(timeout),
            r.max_idle() == self.max_idle(),
            r.idle_timeout() == self.idle_timeout(),
    {
        ClientBuilder { timeout: Some(timeout), ..self }
    }

    /// Sets the maximum idle connections per host in the pool.
    pub fn pool_max_idle_per_host(self, max: usize) -> (r: ClientBuilder)
        ensures
            r.url() == self.url(),
            r.timeout_span() == self.timeout_span(),
            r.max_idle() == Some(max),
            r.idle_timeout() == self.idle_timeout(),
    {
        ClientBuilder { pool_max_idle_per_host: Some(max), ..self }
    }

    /// Sets how long idle sockets stay in the pool; `None` keeps the default.
    pub fn pool_idle_timeout(self, timeout: Option<Duration>) -> (r: ClientBuilder)
        ensures
            r.url() == self.url(),
            r.timeout_span() == self.timeout_span(),
            r.max_idle() == self.max_idle(),
            r.idle_timeout() == timeout,
    {
        ClientBuilder { pool_idle_timeout: timeout, ..self }
    }

    /// The base URL.
    pub fn base_url(&self) -> (r: &str)
        ensures
            r@ == self.url(),
    {
        self.base_url.as_str()
    }

    /// The request timeout, if any.
    pub fn timeout_setting(&self) -> (r: Option<Duration>)
        ensures
            r == self.timeout_span(),
    {
        self.timeout
    }

    /// The per-host idle-connection limit, if any.
    pub fn max_idle_setting(&self) -> (r: Option<usize>)
        ensures
            r == self.max_idle(),
    {
        self.pool_max_idle_per_host
    }

    /// The idle-socket timeout, if any.
    pub fn idle_timeout_setting(&self) -> (r: Option<Duration>)
        ensures
            r == self.idle_timeout(),
    {
        self.pool_idle_timeout
    }
}

/// Response of `GET /global/health`.
#[derive(Debug, Clone)]
pub struct HealthResponse {
    /// Server version string.
    pub version: String,
}

/// One server-sent event with its raw data (typically JSON).
#[derive(Debug)]
pub struct SseEvent {
    /// Raw event data.
    pub data: String,
}

/// A file or directory entry from `GET /file`.
#[derive(Debug, Clone)]
pub struct FileEntry {
    /// Display name.
    pub name: Option<String>,
    /// Path relative to the project root.
    pub path: Option<String>,
    /// Entry type, e.g. `"file"` or `"directory"`.
    pub entry_type: Option<String>,
    /// File size in bytes (files only).
    pub size: Option<u64>,
}

/// A file status entry from `GET /file/status` (git status).
#[derive(Debug, Clone)]
pub struct FileStatus {
    /// File path.
    pub path: Option<String>,
    /// Git status, e.g. `"modified"`, `"added"`, `"deleted"`.
    pub status: Option<String>,
}

/// Request body of a permission reply.
#[derive(Debug, Clone)]
pub struct PermissionReplyRequest {
    /// `"allow"` or `"deny"`.
    pub reply: String,
    /// Optional message.
    pub message: Option<String>,
}

/// A query parameter's name and value.
pub open spec fn param_view(p: (String, String)) -> (Seq<char>, Seq<char>) {
    (p.0@, p.1@)
}

/// The parameter `name=value` when `value` is given, as zero or one parameters.
pub open spec fn optional_param(name: Seq<char>, value: Option<Seq<char>>) -> Seq<(Seq<char>, Seq<char>)> {
    match value {
        Some(v) => seq![(name, v)],
        None => Seq::empty(),
    }
}

/// The query of `GET /find/file`: `query`, then `dirs`, `type` and `limit` when given.
pub open spec fn find_file_params(
    query: Seq<char>,
    dirs: Option<Seq<char>>,
    file_type: Option<Seq<char>>,
    limit: Option<u32>,
) -> Seq<(Seq<char>, Seq<char>)> {
    seq![("query"@, query)] + optional_param("dirs"@, dirs) + optional_param("type"@, file_type)
        + optional_param("limit"@, match limit {
            Some(l) => Some(decimal(l as nat)),
            None => None,
        })
}

/// The characters of an optional string slice.
pub open spec fn opt_str(o: Option<&str>) -> Option<Seq<char>> {
    match o {
        Some(s) => Some(s@),
        None => None,
    }
}

/// Appends the parameter `name=value` to `params`.
fn push_param(params: &mut Vec<(String, String)>, name: &str, value: &str)
    ensures
        final(params)@.map_values(|p: (String, String)| param_view(p))
            == old(params)@.map_values(|p: (String, String)| param_view(p)).push((name@, value@)),
{
    params.push((String::from_str(name), String::from_str(value)));
    assert(final(params)@.map_values(|p: (String, String)| param_view(p)) =~= old(params)@.map_values(
        |p: (String, String)| param_view(p),
    ).push((name@, value@)));
}

/// The query parameters of `GET /find/file` (file search by name or
/// pattern): `query`, then `dirs`, `type` and `limit` when given, in that order.
pub fn find_file_query(
    query: &str,
    dirs: Option<&str>,
    file_type: Option<&str>,
    limit: Option<u32>,
) -> (r: Vec<(String, String)>)
    ensures
        r@.map_values(|p: (String, String)| param_view(p)) == find_file_params(query@, opt_str(dirs), opt_str(file_type), limit),
{
    let mut params: Vec<(String, String)> = Vec::new();
    push_param(&mut params, "query", query);
    match dirs {
        Some(d) => push_param(&mut params, "dirs", d),
        None => {},
    }
    match file_type {
        Some(t) => push_param(&mut params, "type", t),
        None => {},
    }
    match limit {
        Some(l) => {
            let text = decimal_string(l as u64);
            push_param(&mut params, "limit", text.as_str());
        },
        None => {},
    }
    assert(params@.map_values(|p: (String, String)| param_view(p)) =~= find_file_params(
        query@,
        opt_str(dirs),
        opt_str(file_type),
        limit,
    ));
    params
}

/// The member `key` holding string `value` when given, as zero or one members.
pub open spec fn optional_text_member(key: Seq<char>, value: Option<Seq<char>>) -> Seq<(Seq<char>, JsonView)> {
    match value {
        Some(v) => seq![(key, JsonView::String(v))],
        None => Seq::empty(),
    }
}

/// The body of `POST /experimental/worktree`: `name` and `startCommand`, each when given.
pub fn worktree_create_body(name: Option<&str>, start_command: Option<&str>) -> (r: Json)
    ensures
        r.deep() == JsonView::Object(
            optional_text_member("name"@, opt_str(name)) + optional_text_member("startCommand"@, opt_str(start_command)),
        ),
{
    let mut fields: Vec<(String, Json)> = Vec::new();
    match name {
        Some(n) => fields.push(member("name", Json::string(n))),
        None => {},
    }
    match start_command {
        Some(c) => fields.push(member("startCommand", Json::string(c))),
        None => {},
    }
    assert(crate::json::members_view(fields@) =~= optional_text_member("name"@, opt_str(name))
        + optional_text_member("startCommand"@, opt_str(start_command)));
    Json::object(fields)
}

/// The body naming a worktree, `{"directory": <worktree_directory>}`, for
/// removing or resetting it.
pub fn worktree_directory_body(worktree_directory: &str) -> (r: Json)
    ensures
        r.deep() == JsonView::Object(seq![("directory"@, JsonView::String(worktree_directory@))]),
{
    Json::single("directory", Json::string(worktree_directory))
}

} // verus!
