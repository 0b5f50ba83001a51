//! The Zoekt code-search client's logic: where requests go, what they carry,
//! how replies are read, and how the `zoekt_search` and `zoekt_list` tools
//! read their arguments. The HTTP exchange itself is the caller's.

use vstd::prelude::*;
use crate::json::{member, int_number, Json, JsonNumber, JsonView};
use crate::text::{trim_end_char, trim_end_matches_char};
use crate::langgraph::tool::{property, property_view, schema, schema_view};

verus! {

/// Base URL used when none is configured.
pub open spec fn default_base_url() -> Seq<char> {
    "http://127.0.0.1:6070"@
}

/// The configured base URL, or the default.
pub open spec fn base_url_or_default(configured: Option<Seq<char>>) -> Seq<char> {
    match configured {
        Some(u) => u,
        None => default_base_url(),
    }
}

/// The Zoekt base URL: the configured value (`ZOEKT_BASE_URL`) when set, else
/// `http://127.0.0.1:6070`.
pub fn zoekt_base_url(configured: Option<String>) -> (r: String)
    ensures
        r@ == base_url_or_default(match configured {
            Some(u) => Some(u@),
            None => None,
        }),
{
    match configured {
        Some(u) => u,
        None => {
            proof {
                reveal_strlit("http://127.0.0.1:6070");
            }
            String::from_str("http://127.0.0.1:6070")
        },
    }
}

/// HTTP Basic credentials: present only when both the user name
/// (`ZOEKT_USERNAME`) and the password (`ZOEKT_PASSWORD`) are set.
pub fn zoekt_basic_auth(username: Option<String>, password: Option<String>) -> (r: Option<(String, String)>)
    ensures
        match (username, password) {
            (Some(u), Some(p)) => r matches Some(c) && c.0@ == u@ && c.1@ == p@,
            _ => r is None,
        },
{
    match (username, password) {
        (Some(u), Some(p)) => Some((u, p)),
        _ => None,
    }
}

/// Why a Zoekt call failed.
#[derive(Debug)]
pub enum ZoektClientError {
    /// The HTTP exchange failed.
    Request(String),
    /// Zoekt answered with an error status.
    Api(String),
}

impl ZoektClientError {
    /// The error's message.
    pub open spec fn message_view(self) -> Seq<char> {
        match self {
            ZoektClientError::Request(e) => "HTTP request failed: "@ + e@,
            ZoektClientError::Api(e) => "Zoekt API error: "@ + e@,
        }
    }

    /// The error's message: `HTTP request failed: ...` or `Zoekt API error: ...`.
    pub fn message(&self) -> (r: String)
        ensures
            r@ == self.message_view(),
    {
        match self {
            ZoektClientError::Request(e) => {
                let mut s = String::from_str("HTTP request failed: ");
                s.append(e.as_str());
                s
            },
            ZoektClientError::Api(e) => {
                let mut s = String::from_str("Zoekt API error: ");
                s.append(e.as_str());
                s
            },
        }
    }
}

/// Where a Zoekt server is and how to authenticate to it.
#[derive(Debug, Clone)]
pub struct ZoektClient {
    base_url: String,
    basic_auth: Option<(String, String)>,
}

/// The characters of optional credentials.
pub open spec fn auth_view(a: Option<(String, String)>) -> Option<(Seq<char>, Seq<char>)> {
    match a {
        Some(c) => Some((c.0@, c.1@)),
        None => None,
    }
}

impl ZoektClient {
    /// The base URL requests are sent under.
    pub closed spec fn base(self) -> Seq<char> {
        self.base_url@
    }

    /// The Basic credentials, if any.
    pub closed spec fn auth(self) -> Option<(Seq<char>, Seq<char>)> {
        auth_view(self.basic_auth)
    }

    /// A client for `base_url` (trailing `/` removed) with optional Basic credentials.
    pub fn new(base_url: String, basic_auth: Option<(String, String)>) -> (r: ZoektClient)
        ensures
            r.base() == trim_end_char(base_url@, '/'),
            r.auth() == auth_view(basic_auth),
    {
        let trimmed = trim_end_matches_char(base_url.as_str(), '/');
        ZoektClient { base_url: String::from_str(trimmed), basic_auth }
    }

    /// A client configured from the environment's values: the base URL (as
    /// given, or the default when unset) and the credentials (when both are set).
    pub fn from_env_values(
        base_url: Option<String>,
        username: Option<String>,
        password: Option<String>,
    ) -> (r: ZoektClient)
        ensures
            r.base() == base_url_or_default(match base_url {
                Some(u) => Some(u@),
                None => None,
            }),
            r.auth() == match (username, password) {
                (Some(u), Some(p)) => Some((u@, p@)),
                _ => None,
            },
    {
        ZoektClient { base_url: zoekt_base_url(base_url), basic_auth: zoekt_basic_auth(username, password) }
    }

    /// The base URL.
    pub fn base_url(&self) -> (r: &str)
        ensures
            r@ == self.base(),
    {
        self.base_url.as_str()
    }

    /// The Basic credentials (user name, password), if any.
    pub fn basic_auth(&self) -> (r: Option<(&str, &str)>)
        ensures
            match r {
                Some(c) => self.auth() == Some((c.0@, c.1@)),
                None => self.auth() is None,
            },
    {
        match &self.basic_auth {
            Some(c) => Some((c.0.as_str(), c.1.as_str())),
            None => None,
        }
    }

    /// `<base>/api/search`.
    pub fn search_url(&self) -> (r: String)
        ensures
            r@ == self.base() + "/api/search"@,
    {
        let mut s = self.base_url.clone();
        s.append("/api/search");
        s
    }

    /// `<base>/api/list`.
    pub fn list_url(&self) -> (r: String)
        ensures
            r@ == self.base() + "/api/list"@,
    {
        let mut s = self.base_url.clone();
        s.append("/api/list");
        s
    }
}

/// The base URL a client is made with (see [`ZoektClient::new`]) keeps the
/// given URL up to its trailing slashes: it never ends with `/`, and what was
/// cut off is slashes only.
pub proof fn trimmed_base_url(url: Seq<char>)
    ensures
        trim_end_char(url, '/').len() > 0 ==> trim_end_char(url, '/').last() != '/',
        trim_end_char(url, '/').len() <= url.len(),
        trim_end_char(url, '/') == url.take(trim_end_char(url, '/').len() as int),
        forall|i: int| trim_end_char(url, '/').len() <= i < url.len() ==> url[i] == '/',
    decreases url.len(),
{
    if url.len() > 0 && url.last() == '/' {
        trimmed_base_url(url.drop_last());
        let t = trim_end_char(url, '/');
        assert(t == trim_end_char(url.drop_last(), '/'));
        assert(url.drop_last().take(t.len() as int) =~= url.take(t.len() as int));
        assert forall|i: int| t.len() <= i < url.len() implies url[i] == '/' by {
            if i < url.len() - 1 {
                assert(url.drop_last()[i] == url[i]);
            }
        }
    } else {
        assert(url.take(url.len() as int) =~= url);
    }
}

/// How an MCP tool presents itself: name, title, description and the JSON
/// schema of its arguments.
#[derive(Debug)]
pub struct ToolDescriptor {
    pub name: String,
    pub title: String,
    pub description: String,
    pub input_schema: Json,
}

/// The `zoekt_search` tool's argument schema.
pub open spec fn search_schema_view() -> JsonView {
    schema_view(
        seq![
            ("q"@, property_view("string"@, "Zoekt query string (required)"@)),
            ("repo_ids"@, JsonView::Object(seq![
                ("type"@, JsonView::String("array"@)),
                ("items"@, JsonView::Object(seq![("type"@, JsonView::String("integer"@))])),
                ("description"@, JsonView::String("Limit search to these repository IDs"@)),
            ])),
            ("num_context_lines"@, property_view("integer"@, "Context lines before/after each match (0-10)"@)),
            ("max_doc_display_count"@, property_view("integer"@, "Max number of files to return"@)),
        ],
        seq!["q"@],
    )
}

/// The `zoekt_list` tool's argument schema.
pub open spec fn list_schema_view() -> JsonView {
    schema_view(seq![("q"@, property_view("string"@, "Zoekt repo query (e.g. empty for all, or repo:pattern)"@))], seq!["q"@])
}

/// The `zoekt_search` tool: Zoekt code search with a required query `q`,
/// optional `repo_ids`, `num_context_lines` and `max_doc_display_count`.
pub fn zoekt_search_descriptor() -> (r: ToolDescriptor)
    ensures
        r.name@ == "zoekt_search"@,
        r.title@ == "Zoekt code search"@,
        r.description@ == "Search code using Zoekt. Uses Zoekt query syntax (see query_syntax). Optional: repo_ids (array of repo IDs), num_context_lines, max_doc_display_count."@,
        r.input_schema.deep() == search_schema_view(),
{
    let mut item_fields: Vec<(String, Json)> = Vec::new();
    item_fields.push(member("type", Json::string("integer")));
    assert(crate::json::members_view(item_fields@) =~= seq![("type"@, JsonView::String("integer"@))]);
    let items = Json::object(item_fields);
    let mut id_fields: Vec<(String, Json)> = Vec::new();
    id_fields.push(member("type", Json::string("array")));
    id_fields.push(member("items", items));
    id_fields.push(member("description", Json::string("Limit search to these repository IDs")));
    assert(crate::json::members_view(id_fields@) =~= seq![
        ("type"@, JsonView::String("array"@)),
        ("items"@, JsonView::Object(seq![("type"@, JsonView::String("integer"@))])),
        ("description"@, JsonView::String("Limit search to these repository IDs"@)),
    ]);
    let ids = Json::object(id_fields);
    let mut props: Vec<(String, Json)> = Vec::new();
    props.push(member("q", property("string", "Zoekt query string (required)")));
    props.push(member("repo_ids", ids));
    props.push(member("num_context_lines", property("integer", "Context lines before/after each match (0-10)")));
    props.push(member("max_doc_display_count", property("integer", "Max number of files to return")));
    let mut required: Vec<String> = Vec::new();
    required.push(String::from_str("q"));
    let ghost pv = crate::json::members_view(props@);
    let ghost rv = required@.map_values(|s: String| s@);
    let input_schema = schema(props, required);
    assert(search_schema_view() == schema_view(pv, rv)) by {
        assert(pv =~= seq![
            ("q"@, property_view("string"@, "Zoekt query string (required)"@)),
            ("repo_ids"@, JsonView::Object(seq![
                ("type"@, JsonView::String("array"@)),
                ("items"@, JsonView::Object(seq![("type"@, JsonView::String("integer"@))])),
                ("description"@, JsonView::String("Limit search to these repository IDs"@)),
            ])),
            ("num_context_lines"@, property_view("integer"@, "Context lines before/after each match (0-10)"@)),
            ("max_doc_display_count"@, property_view("integer"@, "Max number of files to return"@)),
        ]);
        assert(rv =~= seq!["q"@]);
    }
    ToolDescriptor {
        name: String::from_str("zoekt_search"),
        title: String::from_str("Zoekt code search"),
        description: String::from_str(
            "Search code using Zoekt. Uses Zoekt query syntax (see query_syntax). Optional: repo_ids (array of repo IDs), num_context_lines, max_doc_display_count.",
        ),
        input_schema,
    }
}

/// The `zoekt_list` tool: lists repositories, filtered by the query `q`.
pub fn zoekt_list_descriptor() -> (r: ToolDescriptor)
    ensures
        r.name@ == "zoekt_list"@,
        r.title@ == "Zoekt list repositories"@,
        r.description@ == "List repositories from Zoekt. Use query q to filter (e.g. empty or repo:name)."@,
        r.input_schema.deep() == list_schema_view(),
{
    let mut props: Vec<(String, Json)> = Vec::new();
    props.push(member("q", property("string", "Zoekt repo query (e.g. empty for all, or repo:pattern)")));
    let mut required: Vec<String> = Vec::new();
    required.push(String::from_str("q"));
    let ghost pv = crate::json::members_view(props@);
    let ghost rv = required@.map_values(|s: String| s@);
    let input_schema = schema(props, required);
    assert(list_schema_view() == schema_view(pv, rv)) by {
        assert(pv =~= seq![("q"@, property_view("string"@, "Zoekt repo query (e.g. empty for all, or repo:pattern)"@))]);
        assert(rv =~= seq!["q"@]);
    }
    ToolDescriptor {
        name: String::from_str("zoekt_list"),
        title: String::from_str("Zoekt list repositories"),
        description: String::from_str("List repositories from Zoekt. Use query q to filter (e.g. empty or repo:name)."),
        input_schema,
    }
}

/// The JSON array of repository ids.
pub open spec fn ids_view(ids: Seq<u32>) -> JsonView {
    JsonView::Array(ids.map_values(|id: u32| JsonView::Number(JsonNumber::PosInt(id as u64))))
}

/// The optional member `key: value`, as a sequence of zero or one members.
pub open spec fn optional_member(key: Seq<char>, value: Option<JsonView>) -> Seq<(Seq<char>, JsonView)> {
    match value {
        Some(v) => seq![(key, v)],
        None => Seq::empty(),
    }
}

/// The body of a search request: `Q`, then `RepoIDs` and `Opts` when given.
pub open spec fn search_body_view(q: Seq<char>, repo_ids: Option<Seq<u32>>, opts: Option<JsonView>) -> JsonView {
    JsonView::Object(
        seq![("Q"@, JsonView::String(q))]
            + optional_member("RepoIDs"@, match repo_ids {
                Some(ids) => Some(ids_view(ids)),
                None => None,
            })
            + optional_member("Opts"@, opts),
    )
}

/// The JSON array holding `ids`.
fn ids_json(ids: &Vec<u32>) -> (r: Json)
    ensures
        r.deep() == ids_view(ids@),
{
    let mut out: Vec<Json> = Vec::new();
    let mut i: usize = 0;
    while i < ids.len()
        invariant
            i <= ids@.len(),
            out@.len() == i,
            forall|k: int| 0 <= k < i ==> (#[trigger] out@[k]).deep() == JsonView::Number(
                JsonNumber::PosInt(ids@[k] as u64),
            ),
        decreases ids@.len() - i,
    {
        out.push(Json::Number(JsonNumber::PosInt(ids[i] as u64)));
        i += 1;
    }
    let r = Json::Array(out);
    assert(r.deep() matches JsonView::Array(xs) && xs =~= ids@.map_values(
        |id: u32| JsonView::Number(JsonNumber::PosInt(id as u64)),
    ));
    r
}

/// The body of `POST /api/search`: `{"Q": q}`, with `RepoIDs` and `Opts` when given.
pub fn search_body(q: &str, repo_ids: Option<Vec<u32>>, opts: Option<Json>) -> (r: Json)
    ensures
        r.deep() == search_body_view(
            q@,
            match repo_ids {
                Some(ids) => Some(ids@),
                None => None,
            },
            match opts {
                Some(o) => Some(o.deep()),
                None => None,
            },
        ),
{
    let ghost ids_v = match &repo_ids {
        Some(ids) => Some(ids_view(ids@)),
        None => None,
    };
    let ghost opts_v = match &opts {
        Some(o) => Some(o.deep()),
        None => None,
    };
    let mut fields: Vec<(String, Json)> = Vec::new();
    fields.push(member("Q", Json::string(q)));
    match repo_ids {
        Some(ids) => {
            fields.push(member("RepoIDs", ids_json(&ids)));
        },
        None => {},
    }
    match opts {
        Some(o) => {
            fields.push(member("Opts", o));
        },
        None => {},
    }
    let r = Json::object(fields);
    proof {
        let expected = seq![("Q"@, JsonView::String(q@))] + optional_member("RepoIDs"@, ids_v)
            + optional_member("Opts"@, opts_v);
        assert(crate::json::members_view(fields@) =~= expected);
    }
    r
}

/// The body of a list request: `Q`, then `Opts` when given.
pub open spec fn list_body_view(q: Seq<char>, opts: Option<JsonView>) -> JsonView {
    JsonView::Object(seq![("Q"@, JsonView::String(q))] + optional_member("Opts"@, opts))
}

/// The body of `POST /api/list`: `{"Q": q}`, with `Opts` when given.
pub fn list_body(q: &str, opts: Option<Json>) -> (r: Json)
    ensures
        r.deep() == list_body_view(
            q@,
            match opts {
                Some(o) => Some(o.deep()),
                None => None,
            },
        ),
{
    let ghost opts_v = match &opts {
        Some(o) => Some(o.deep()),
        None => None,
    };
    let mut fields: Vec<(String, Json)> = Vec::new();
    fields.push(member("Q", Json::string(q)));
    match opts {
        Some(o) => {
            fields.push(member("Opts", o));
        },
        None => {},
    }
    let r = Json::object(fields);
    proof {
        assert(crate::json::members_view(fields@) =~= seq![("Q"@, JsonView::String(q@))] + optional_member("Opts"@, opts_v));
    }
    r
}

/// What a Zoekt reply means, given whether its status was a success and its
/// body (`null` when the body was not JSON): on success, the body's member
/// `key` (`Result` for a search, `List` for a listing), `null` when absent;
/// otherwise an API error carrying the body's `Error` string, or
/// `unknown error` when it has none.
pub fn read_response(success: bool, body: &Json, key: &str) -> (r: Result<Json, ZoektClientError>)
    ensures
        success ==> (r matches Ok(v) && v.deep() == match body.field(key@) {
            Some(x) => x.deep(),
            None => JsonView::Null,
        }),
        !success ==> (r matches Err(ZoektClientError::Api(m)) && m@ == match body.field("Error"@) {
            Some(Json::String(e)) => e@,
            _ => "unknown error"@,
        }),
{
    if !success {
        let msg = match body.get("Error") {
            Some(e) => match e.as_str() {
                Some(s) => String::from_str(s),
                None => {
                    proof {
                        reveal_strlit("unknown error");
                    }
                    String::from_str("unknown error")
                },
            },
            None => {
                proof {
                    reveal_strlit("unknown error");
                }
                String::from_str("unknown error")
            },
        };
        return Err(ZoektClientError::Api(msg));
    }
    match body.get(key) {
        Some(v) => Ok(v.duplicate()),
        None => Ok(Json::Null),
    }
}

/// The tool's outcome: the reply's JSON, or the error's message.
pub fn tool_result_from_zoekt(r: Result<Json, ZoektClientError>) -> (out: Result<Json, String>)
    ensures
        match r {
            Ok(v) => out == Ok::<Json, String>(v),
            Err(e) => out matches Err(m) && m@ == e.message_view(),
        },
{
    match r {
        Ok(v) => Ok(v),
        Err(e) => Err(e.message()),
    }
}

/// The tool arguments when they form an object.
pub open spec fn args_object(args: Option<Json>) -> Option<Json> {
    match args {
        Some(a) => if a.is_obj() { Some(a) } else { None },
        None => None,
    }
}

/// Member `key` of the argument object.
pub open spec fn arg(args: Option<Json>, key: Seq<char>) -> Option<Json> {
    match args_object(args) {
        Some(a) => a.field(key),
        None => None,
    }
}

/// The repository ids among `items`: each non-negative integer, truncated to 32 bits, in order.
pub open spec fn repo_id_list(items: Seq<Json>) -> Seq<u32>
    decreases items.len(),
{
    if items.len() == 0 {
        Seq::empty()
    } else {
        let rest = repo_id_list(items.drop_last());
        match items.last() {
            Json::Number(JsonNumber::PosInt(u)) => rest.push(u as u32),
            _ => rest,
        }
    }
}

/// The `repo_ids` argument: the ids of an array, unless there are none.
pub open spec fn repo_ids_arg(args: Option<Json>) -> Option<Seq<u32>> {
    match arg(args, "repo_ids"@) {
        Some(Json::Array(items)) => if repo_id_list(items@).len() > 0 {
            Some(repo_id_list(items@))
        } else {
            None
        },
        _ => None,
    }
}

/// An integer argument, when present and an `i64`.
pub open spec fn int_arg(args: Option<Json>, key: Seq<char>) -> Option<i64> {
    match arg(args, key) {
        Some(Json::Number(n)) => n.i64_value(),
        _ => None,
    }
}

/// The member `key` holding integer `n`, when `n` is given.
pub open spec fn int_member(key: Seq<char>, n: Option<i64>) -> Seq<(Seq<char>, JsonView)> {
    match n {
        Some(v) => seq![(key, JsonView::Number(int_number(v)))],
        None => Seq::empty(),
    }
}

/// The search options: `NumContextLines` and `MaxDocDisplayCount` from the
/// `num_context_lines` and `max_doc_display_count` arguments, when any is given.
pub open spec fn search_opts_arg(args: Option<Json>) -> Option<JsonView> {
    let n = int_arg(args, "num_context_lines"@);
    let m = int_arg(args, "max_doc_display_count"@);
    if n is None && m is None {
        None
    } else {
        Some(JsonView::Object(int_member("NumContextLines"@, n) + int_member("MaxDocDisplayCount"@, m)))
    }
}

/// The arguments of a search.
#[derive(Debug)]
pub struct SearchArgs {
    /// The Zoekt query.
    pub q: String,
    /// Repositories to search, when limited.
    pub repo_ids: Option<Vec<u32>>,
    /// Search options, when any.
    pub opts: Option<Json>,
}

/// The argument object, when the arguments are one.
fn object_args<'a>(args: Option<&'a Json>) -> (r: Option<&'a Json>)
    ensures
        match r {
            Some(a) => args_object(crate::json::deref_opt(args)) == Some(*a),
            None => args_object(crate::json::deref_opt(args)) is None,
        },
{
    match args {
        Some(a) => if a.is_object() { Some(a) } else { None },
        None => None,
    }
}

/// The ids among `items` (see [`repo_id_list`]).
fn collect_repo_ids(items: &Vec<Json>) -> (r: Vec<u32>)
    ensures
        r@ == repo_id_list(items@),
{
    let mut out: Vec<u32> = Vec::new();
    let mut i: usize = 0;
    while i < items.len()
        invariant
            i <= items@.len(),
            out@ == repo_id_list(items@.take(i as int)),
        decreases items@.len() - i,
    {
        assert(items@.take(i + 1).drop_last() =~= items@.take(i as int));
        assert(items@.take(i + 1).last() == items@[i as int]);
        match items[i].as_u64() {
            Some(u) => {
                out.push(u as u32);
            },
            None => {},
        }
        i += 1;
    }
    assert(items@.take(items@.len() as int) =~= items@);
    out
}

/// The `zoekt_search` tool's arguments: `q` (a string, required: `missing q`
/// otherwise), `repo_ids`, and the options (see [`search_opts_arg`]).
pub fn search_args(args: Option<&Json>) -> (r: Result<SearchArgs, String>)
    ensures
        match opt_text_arg(crate::json::deref_opt(args), "q"@) {
            None => r matches Err(m) && m@ == "missing q"@,
            Some(q) => r matches Ok(a) && a.q@ == q
                && match (a.repo_ids, repo_ids_arg(crate::json::deref_opt(args))) {
                    (Some(ids), Some(expected)) => ids@ == expected,
                    (None, None) => true,
                    _ => false,
                }
                && match (a.opts, search_opts_arg(crate::json::deref_opt(args))) {
                    (Some(o), Some(expected)) => o.deep() == expected,
                    (None, None) => true,
                    _ => false,
                },
        },
{
    let obj = object_args(args);
    let q = match obj {
        Some(a) => match a.get("q") {
            Some(v) => v.as_str(),
            None => None,
        },
        None => None,
    };
    let q = match q {
        Some(q) => q,
        None => {
            proof {
                reveal_strlit("missing q");
            }
            return Err(String::from_str("missing q"));
        },
    };
    let repo_ids = match obj {
        Some(a) => match a.get("repo_ids") {
            Some(Json::Array(items)) => {
                let ids = collect_repo_ids(items);
                if ids.len() == 0 {
                    None
                } else {
                    Some(ids)
                }
            },
            _ => None,
        },
        None => None,
    };
    let n = int_of(obj, "num_context_lines");
    let m = int_of(obj, "max_doc_display_count");
    let opts = if n.is_none() && m.is_none() {
        None
    } else {
        let mut fields: Vec<(String, Json)> = Vec::new();
        match n {
            Some(v) => {
                fields.push(member("NumContextLines", Json::from_i64(v)));
            },
            None => {},
        }
        match m {
            Some(v) => {
                fields.push(member("MaxDocDisplayCount", Json::from_i64(v)));
            },
            None => {},
        }
        proof {
            assert(crate::json::members_view(fields@) =~= int_member("NumContextLines"@, n)
                + int_member("MaxDocDisplayCount"@, m));
        }
        Some(Json::object(fields))
    };
    Ok(SearchArgs { q: String::from_str(q), repo_ids, opts })
}

/// A string argument.
pub open spec fn opt_text_arg(args: Option<Json>, key: Seq<char>) -> Option<Seq<char>> {
    match arg(args, key) {
        Some(v) => v.text(),
        None => None,
    }
}

/// An integer member of the argument object (see [`int_arg`]).
fn int_of(obj: Option<&Json>, key: &str) -> (r: Option<i64>)
    ensures
        r == match obj {
            Some(a) => match a.field(key@) {
                Some(Json::Number(n)) => n.i64_value(),
                _ => None,
            },
            None => None,
        },
{
    match obj {
        Some(a) => match a.get(key) {
            Some(v) => v.as_i64(),
            None => None,
        },
        None => None,
    }
}

/// The `zoekt_list` tool's query: the `q` argument when it is a string, else empty.
pub fn list_query(args: Option<&Json>) -> (r: String)
    ensures
        r@ == match opt_text_arg(crate::json::deref_opt(args), "q"@) {
            Some(q) => q,
            None => Seq::empty(),
        },
{
    let obj = object_args(args);
    let q = match obj {
        Some(a) => match a.get("q") {
            Some(v) => v.as_str(),
            None => None,
        },
        None => None,
    };
    match q {
        Some(q) => String::from_str(q),
        None => String::new(),
    }
}

/// How the MCP server talks to its client.
#[derive(Debug)]
pub enum Transport {
    /// JSON-RPC over standard input and output.
    Stdio,
    /// HTTP (Streamable HTTP/SSE and WebSocket) bound to this address.
    Http(String),
}

/// The transport chosen by the command line: standard I/O unless an HTTP
/// address was given without `--stdio`.
pub fn choose_transport(stdio: bool, http: Option<String>) -> (r: Transport)
    ensures
        match http {
            Some(addr) => if stdio {
                r is Stdio
            } else {
                r matches Transport::Http(a) && a@ == addr@
            },
            None => r is Stdio,
        },
{
    match http {
        Some(addr) => if stdio {
            Transport::Stdio
        } else {
            Transport::Http(addr)
        },
        None => Transport::Stdio,
    }
}

} // verus!
