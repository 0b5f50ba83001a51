//! Tools: the tool interface, a registry, tool chains, the file tool's
//! argument and path rules, and the HTTP request tool.

use vstd::prelude::*;
use std::path::PathBuf;
use std::sync::Arc;
use crate::json::{Json, JsonView, member, opt_text, lookup};
use crate::langgraph::error::ToolError;
use crate::text::{contains_str, has_infix, str_eq, trim_start_char, trim_start_matches_char};

verus! {

/// Uppercase form of `s` as `str::to_uppercase` computes it (Unicode case mapping).
pub uninterp spec fn uppercase(s: Seq<char>) -> Seq<char>;

/// Lowercase form of `s` as `str::to_lowercase` computes it (Unicode case mapping).
pub uninterp spec fn lowercase(s: Seq<char>) -> Seq<char>;

/// One ASCII character in upper case (other characters unchanged).
pub open spec fn ascii_upper_char(c: char) -> char {
    if 'a' <= c && c <= 'z' {
        ((c as u32) - 32) as char
    } else {
        c
    }
}

/// One ASCII character in lower case (other characters unchanged).
pub open spec fn ascii_lower_char(c: char) -> char {
    if 'A' <= c && c <= 'Z' {
        ((c as u32) + 32) as char
    } else {
        c
    }
}

/// `str::to_uppercase`: the result is the Unicode uppercase mapping of `s`,
/// named [`uppercase`]; on ASCII text it is the ASCII uppercase mapping, as
/// std documents. Nothing more about other text is stated.
#[verifier::external_body]
fn to_uppercase(s: &str) -> (r: String)
    ensures
        r@ == uppercase(s@),
        vstd::utf8::is_ascii_chars(s@) ==> r@ == s@.map_values(|c: char| ascii_upper_char(c)),
{
    s.to_uppercase()
}

/// `str::to_lowercase`: the result is the Unicode lowercase mapping of `s`,
/// named [`lowercase`]; on ASCII text it is the ASCII lowercase mapping, as
/// std documents. Nothing more about other text is stated.
#[verifier::external_body]
fn to_lowercase(s: &str) -> (r: String)
    ensures
        r@ == lowercase(s@),
        vstd::utf8::is_ascii_chars(s@) ==> r@ == s@.map_values(|c: char| ascii_lower_char(c)),
{
    s.to_lowercase()
}

/// A tool an agent can call with JSON arguments.
pub trait Tool: Send + Sync {
    /// The name the tool declares, if it declares one; by default none.
    open spec fn declared_name(&self) -> Option<Seq<char>> {
        None
    }

    /// `result` is an outcome of running the tool on `args`; by default any result is.
    open spec fn runs(&self, args: Json, result: Result<Json, ToolError>) -> bool {
        true
    }

    /// The tool's name.
    fn name(&self) -> (r: &str)
        ensures
            self.declared_name() matches Some(n) ==> r@ == n;

    /// What the tool does.
    fn description(&self) -> &str;

    /// The argument schema the tool declares, if it declares one; by default none.
    open spec fn declared_schema(&self) -> Option<JsonView> {
        None
    }

    /// JSON schema of the arguments.
    fn parameters_schema(&self) -> (r: Json)
        ensures
            self.declared_schema() matches Some(s) ==> r.deep() == s;

    /// Runs the tool.
    fn execute(&self, args: Json) -> (r: Result<Json, ToolError>)
        ensures
            self.runs(args, r);
}

/// Tools by name.
pub struct ToolRegistry {
    tools: Vec<(String, Box<dyn Tool>)>,
}

/// The first index from `i` on in `names` holding `name`, if any.
pub open spec fn first_from(names: Seq<Seq<char>>, name: Seq<char>, i: int) -> Option<int>
    decreases names.len() - i,
{
    if i < 0 || i >= names.len() {
        None
    } else if names[i] == name {
        Some(i)
    } else {
        first_from(names, name, i + 1)
    }
}

/// What [`first_from`] finds: the first matching index, or that there is none.
pub proof fn lemma_first_from(names: Seq<Seq<char>>, name: Seq<char>, i: int)
    requires
        0 <= i <= names.len(),
    ensures
        match first_from(names, name, i) {
            Some(j) => i <= j < names.len() && names[j] == name
                && forall|k: int| i <= k < j ==> names[k] != name,
            None => forall|k: int| i <= k < names.len() ==> names[k] != name,
        },
    decreases names.len() - i,
{
    if i < names.len() && names[i] != name {
        lemma_first_from(names, name, i + 1);
    }
}

/// Searching a sequence with one name more.
proof fn lemma_first_from_push(names: Seq<Seq<char>>, x: Seq<char>, name: Seq<char>, i: int)
    requires
        0 <= i <= names.len(),
    ensures
        first_from(names.push(x), name, i) == match first_from(names, name, i) {
            Some(j) => Some(j),
            None => if name == x { Some(names.len() as int) } else { None },
        },
    decreases names.len() - i,
{
    if i < names.len() {
        assert(names.push(x)[i] == names[i]);
        if names[i] != name {
            lemma_first_from_push(names, x, name, i + 1);
        }
    } else {
        assert(names.push(x)[i] == x);
        assert(first_from(names.push(x), name, i + 1) is None);
    }
}

/// A pair holding `a` and `b`.
fn pair<A, B>(a: A, b: B) -> (r: (A, B))
    ensures
        r.0 == a,
        r.1 == b,
{
    (a, b)
}

/// The value a box holds, by reference.
pub open spec fn held<T: ?Sized>(b: &Box<T>) -> &T {
    &**b
}

/// The value a box holds.
fn unbox<T: ?Sized>(b: &Box<T>) -> (r: &T)
    ensures
        r == held(b),
{
    &**b
}

impl ToolRegistry {
    /// The names under which the tools were registered, in order.
    pub closed spec fn names(self) -> Seq<Seq<char>> {
        self.tools@.map_values(|t: (String, Box<dyn Tool>)| t.0@)
    }

    /// The registered tools, in the order of [`names`](Self::names).
    pub closed spec fn tools_view(self) -> Seq<Box<dyn Tool>> {
        self.tools@.map_values(|t: (String, Box<dyn Tool>)| t.1)
    }

    /// A tool named `name` is registered.
    pub open spec fn has(self, name: Seq<char>) -> bool {
        self.names().contains(name)
    }

    /// The position of the tool registered under `name`, if any.
    pub open spec fn slot(self, name: Seq<char>) -> Option<int> {
        first_from(self.names(), name, 0)
    }

    /// Under `name`, `self` holds the same tool as `other` (or neither holds one).
    pub open spec fn same_tool_for(self, other: ToolRegistry, name: Seq<char>) -> bool {
        match (self.slot(name), other.slot(name)) {
            (Some(i), Some(j)) => self.tools_view()[i] == other.tools_view()[j],
            (None, None) => true,
            _ => false,
        }
    }

    /// A name is registered exactly when a slot holds it.
    pub proof fn lemma_has_slot(self, name: Seq<char>)
        ensures
            self.has(name) <==> self.slot(name) is Some,
            self.slot(name) matches Some(i) ==> 0 <= i < self.names().len() && self.names()[i] == name
                && i < self.tools_view().len(),
    {
        lemma_first_from(self.names(), name, 0);
        if self.has(name) {
            let k = choose|k: int| 0 <= k < self.names().len() && self.names()[k] == name;
            assert(first_from(self.names(), name, 0) is Some);
        }
    }

    /// With names registered at most once, a registered name's slot is the position
    /// it was registered at, so [`get`](Self::get) finds the tool registered under that
    /// name and no other.
    pub proof fn lemma_slot_of_registered(self, k: int)
        requires
            self.unique_names(),
            0 <= k < self.names().len(),
        ensures
            self.slot(self.names()[k]) == Some(k),
    {
        let name = self.names()[k];
        lemma_first_from(self.names(), name, 0);
        if let Some(j) = self.slot(name) {
            if j != k {
                assert(self.names()[j] == self.names()[k]);
            }
        }
    }

    /// An empty registry.
    pub fn new() -> (r: ToolRegistry)
        ensures
            r.names() == Seq::<Seq<char>>::empty(),
            r.unique_names(),
    {
        let r = ToolRegistry { tools: Vec::new() };
        assert(r.names() =~= Seq::<Seq<char>>::empty());
        r
    }

    /// Registers a tool under its own name (what `name()` returns); a tool
    /// already registered under that name is replaced, in place. Every other
    /// name keeps its tool.
    pub fn register(&mut self, tool: Box<dyn Tool>)
        ensures
            exists|n: Seq<char>| #![auto] {
                &&& tool.declared_name() matches Some(d) ==> n == d
                &&& final(self).has(n)
                &&& final(self).slot(n) matches Some(i) && final(self).tools_view()[i] == tool
                &&& forall|m: Seq<char>| m != n ==> final(self).same_tool_for(*old(self), m)
                &&& if old(self).has(n) {
                    final(self).names() == old(self).names()
                } else {
                    final(self).names() == old(self).names().push(n)
                }
            },
            old(self).unique_names() ==> final(self).unique_names(),
    {
        let name = String::from_str(tool.name());
        let ghost n = name@;
        let ghost t = tool;
        proof {
            lemma_first_from(self.names(), n, 0);
        }
        match self.position(name.as_str()) {
            Some(i) => {
                let ghost before = self.tools@;
                let entry = pair(name, tool);
                let ghost e = entry;
                self.tools.set(i, entry);
                assert(self.tools@ == before.update(i as int, e));
                assert(self.names() =~= old(self).names()) by {
                    assert forall|k: int| 0 <= k < self.tools@.len() implies #[trigger] self.names()[k] == old(self).names()[k] by {
                        if k != i {
                            assert(self.tools@[k] == before[k]);
                        }
                    }
                }
                assert(e.1 == t);
                assert(before == old(self).tools@);
                assert(self.tools_view().len() == old(self).tools_view().len());
                assert(self.tools_view()[i as int] == t);
                assert forall|k: int| 0 <= k < self.tools@.len() && k != i implies
                    #[trigger] self.tools_view()[k] == old(self).tools_view()[k] by {
                    assert(self.tools@[k] == before[k]);
                }
                assert(self.names()[i as int] == n);
                assert(self.has(n));
                assert forall|m: Seq<char>| m != n implies self.same_tool_for(*old(self), m) by {
                    lemma_first_from(old(self).names(), m, 0);
                }
            },
            None => {
                proof {
                    lemma_first_from(old(self).names(), n, 0);
                }
                let ghost before = self.tools@;
                let entry = pair(name, tool);
                let ghost e = entry;
                self.tools.push(entry);
                assert(self.tools@ == before.push(e));
                assert(self.names() =~= old(self).names().push(n)) by {
                    assert forall|k: int| 0 <= k < self.tools@.len() implies #[trigger] self.names()[k] == old(self).names().push(n)[k] by {
                        if k < before.len() {
                            assert(self.tools@[k] == before[k]);
                        }
                    }
                }
                assert forall|k: int| 0 <= k < before.len() implies
                    #[trigger] self.tools_view()[k] == old(self).tools_view()[k] by {
                    assert(self.tools@[k] == before[k]);
                }
                assert(self.tools_view()[before.len() as int] == t);
                assert(self.names()[self.names().len() - 1] == n);
                assert(self.has(n));
                proof {
                    lemma_first_from_push(old(self).names(), n, n, 0);
                }
                assert forall|m: Seq<char>| m != n implies self.same_tool_for(*old(self), m) by {
                    lemma_first_from_push(old(self).names(), n, m, 0);
                    lemma_first_from(old(self).names(), m, 0);
                }
                assert(old(self).unique_names() ==> self.unique_names()) by {
                    if old(self).unique_names() {
                        assert forall|a: int, b: int| 0 <= a < b < self.names().len() implies
                            #[trigger] self.names()[a] != #[trigger] self.names()[b] by {
                            if b == self.names().len() - 1 {
                                assert(old(self).names()[a] == self.names()[a]);
                                assert(old(self).names().contains(self.names()[a]));
                            }
                        }
                    }
                }
            },
        }
        assert(tool.declared_name() matches Some(d) ==> n == d);
    }

    /// Names are registered at most once.
    pub open spec fn unique_names(self) -> bool {
        self.names().no_duplicates()
    }

    /// Index of the first tool registered as `name`.
    fn position(&self, name: &str) -> (r: Option<usize>)
        ensures
            match r {
                Some(i) => i < self.names().len() && first_from(self.names(), name@, 0) == Some(i as int),
                None => first_from(self.names(), name@, 0) is None,
            },
    {
        let mut i: usize = 0;
        while i < self.tools.len()
            invariant
                i <= self.tools@.len(),
                first_from(self.names(), name@, 0) == first_from(self.names(), name@, i as int),
            decreases self.tools@.len() - i,
        {
            if str_eq(self.tools[i].0.as_str(), name) {
                return Some(i);
            }
            i += 1;
        }
        None
    }

    /// The tool registered as `name`.
    pub fn get(&self, name: &str) -> (r: Option<&dyn Tool>)
        ensures
            r is Some <==> self.has(name@),
            match self.slot(name@) {
                Some(i) => r matches Some(t) && t == held::<dyn Tool>(&self.tools_view()[i]),
                None => r is None,
            },
    {
        proof {
            self.lemma_has_slot(name@);
        }
        match self.position(name) {
            Some(i) => {
                let b = &self.tools[i].1;
                let t = unbox::<dyn Tool>(b);
                assert(self.tools_view()[i as int] == self.tools@[i as int].1);
                let r = Some(t);
                assert(r matches Some(x) && x == held::<dyn Tool>(&self.tools_view()[i as int]));
                r
            },
            None => None,
        }
    }

    /// Runs the tool registered as `name` (see [`get`](Self::get));
    /// `NotFound(name)` when there is none.
    pub fn execute(&self, name: &str, args: Json) -> (r: Result<Json, ToolError>)
        ensures
            match self.slot(name@) {
                None => r matches Err(ToolError::NotFound(n)) && n@ == name@,
                Some(i) => self.tools_view()[i].runs(args, r),
            },
    {
        match self.position(name) {
            Some(i) => {
                let tool = &self.tools[i].1;
                assert(self.tools_view()[i as int] == *tool);
                let r = tool.execute(args);
                assert(tool.runs(args, r));
                r
            },
            None => Err(ToolError::NotFound(String::from_str(name))),
        }
    }
}

/// Runs tools in sequence; each receives the previous output as its `input` argument.
pub struct ToolChain {
    registry: Arc<ToolRegistry>,
    tool_names: Vec<String>,
}

impl ToolChain {
    /// The names of the chained tools, in order.
    pub closed spec fn names(self) -> Seq<Seq<char>> {
        self.tool_names@.map_values(|s: String| s@)
    }

    /// The registry the chain looks tools up in.
    pub closed spec fn registry(self) -> ToolRegistry {
        *self.registry
    }

    /// A chain running `tool_names` in order, looked up in `registry`.
    pub fn new(registry: Arc<ToolRegistry>, tool_names: Vec<String>) -> (r: ToolChain)
        ensures
            r.registry() == *registry,
            r.names() == tool_names@.map_values(|s: String| s@),
    {
        ToolChain { registry, tool_names }
    }

    /// The first tool of the chain, whose schema the chain takes.
    fn first_tool(&self) -> (r: Result<&dyn Tool, ToolError>)
        ensures
            self.names().len() == 0 ==> (r matches Err(ToolError::ValidationFailed(m)) && m@ == "empty tool chain"@),
            self.names().len() > 0 ==> (r is Ok <==> self.registry().has(self.names()[0])),
            self.names().len() > 0 && !self.registry().has(self.names()[0]) ==> (
                r matches Err(ToolError::NotFound(n)) && n@ == self.names()[0]),
            self.names().len() > 0 ==> (self.registry().slot(self.names()[0]) matches Some(i) ==> (
                r matches Ok(t) && t == held::<dyn Tool>(&self.registry().tools_view()[i]))),
    {
        if self.tool_names.len() == 0 {
            return Err(ToolError::ValidationFailed(String::from_str("empty tool chain")));
        }
        let name = &self.tool_names[0];
        let found = self.registry.get(name.as_str());
        match found {
            Some(t) => {
                let r = Ok(t);
                assert(self.registry().slot(self.names()[0]) matches Some(i) ==> (
                    r matches Ok(x) && x == held::<dyn Tool>(&self.registry().tools_view()[i])));
                r
            },
            None => Err(ToolError::NotFound(name.clone())),
        }
    }
}

/// Schema of a tool without arguments: an object with no properties.
pub open spec fn empty_schema_view() -> JsonView {
    JsonView::Object(seq![
        ("type"@, JsonView::String("object"@)),
        ("properties"@, JsonView::Object(Seq::empty())),
        ("required"@, JsonView::Array(Seq::empty())),
    ])
}

/// The schema [`empty_schema_view`] describes.
fn empty_schema() -> (r: Json)
    ensures
        r.deep() == empty_schema_view(),
{
    let props = Json::Object(Vec::new());
    assert(props.deep() matches JsonView::Object(ps) && ps =~= Seq::<(Seq<char>, JsonView)>::empty());
    let req = Json::Array(Vec::new());
    assert(req.deep() matches JsonView::Array(rs) && rs =~= Seq::<JsonView>::empty());
    let mut top: Vec<(String, Json)> = Vec::new();
    top.push(member("type", Json::string("object")));
    top.push(member("properties", props));
    top.push(member("required", req));
    let r = Json::object(top);
    assert(r.deep() matches JsonView::Object(xs) && empty_schema_view() matches JsonView::Object(ys) && xs =~= ys);
    r
}

/// The arguments the next tool of a chain receives: `{"input": output}`,
/// where `output` is what the previous tool returned.
pub fn chain_link(output: Json) -> (r: Json)
    ensures
        r.deep() == JsonView::Object(seq![("input"@, output.deep())]),
{
    Json::single("input", output)
}

/// Step `j` of a run of `names`: the tool registered under `names[j]` ran on
/// `ins[j]` and answered `outs[j]`, and the next tool, if it ran, got
/// `{"input": outs[j]}`.
pub open spec fn chain_step(
    reg: ToolRegistry,
    names: Seq<Seq<char>>,
    ins: Seq<Json>,
    outs: Seq<Json>,
    j: int,
) -> bool {
    &&& reg.slot(names[j]) is Some
    &&& reg.tools_view()[reg.slot(names[j])->0].runs(ins[j], Ok::<Json, ToolError>(outs[j]))
    &&& j + 1 < ins.len() ==> ins[j + 1].deep() == JsonView::Object(seq![("input"@, outs[j].deep())])
}

/// The first `outs.len()` tools of `names` ran one after the other from
/// `input`, with inputs `ins` and outputs `outs`; when they were not all of
/// them, `ins` also holds the input of the next one.
pub open spec fn chain_prefix(
    reg: ToolRegistry,
    names: Seq<Seq<char>>,
    input: Json,
    ins: Seq<Json>,
    outs: Seq<Json>,
) -> bool {
    &&& outs.len() <= names.len()
    &&& ins.len() == if outs.len() < names.len() { outs.len() + 1 } else { outs.len() }
    &&& ins.len() > 0 ==> ins[0] == input
    &&& forall|j: int| 0 <= j < outs.len() ==> #[trigger] chain_step(reg, names, ins, outs, j)
}

/// How a run with inputs `ins` and outputs `outs` ends in `r`: with the last
/// output when every tool ran; else with `NotFound` for a missing next tool,
/// or with the error the next tool gave.
pub open spec fn chain_end(
    reg: ToolRegistry,
    names: Seq<Seq<char>>,
    ins: Seq<Json>,
    outs: Seq<Json>,
    r: Result<Json, ToolError>,
) -> bool {
    let k = outs.len() as int;
    if k == names.len() {
        r == Ok::<Json, ToolError>(outs[k - 1])
    } else if reg.slot(names[k]) is None {
        r matches Err(ToolError::NotFound(m)) && m@ == names[k]
    } else {
        exists|e: ToolError| #[trigger] reg.tools_view()[reg.slot(names[k])->0].runs(ins[k], Err::<Json, ToolError>(e))
            && r == Err::<Json, ToolError>(e)
    }
}

/// `r` is an outcome of running the tools registered in `reg` under `names`,
/// in turn, on `input`: with no names, `input` itself; otherwise the first
/// tool gets `input`, each next one `{"input": <previous output>}`, the run
/// stops at the first error (or missing tool, `NotFound`), and the last
/// output, unwrapped, is the result.
pub open spec fn chain_runs(reg: ToolRegistry, names: Seq<Seq<char>>, input: Json, r: Result<Json, ToolError>) -> bool {
    if names.len() == 0 {
        r == Ok::<Json, ToolError>(input)
    } else {
        exists|ins: Seq<Json>, outs: Seq<Json>| #[trigger] chain_prefix(reg, names, input, ins, outs)
            && chain_end(reg, names, ins, outs, r)
    }
}

impl Tool for ToolChain {
    open spec fn declared_name(&self) -> Option<Seq<char>> {
        Some("chain"@)
    }

    /// See [`chain_runs`].
    open spec fn runs(&self, args: Json, result: Result<Json, ToolError>) -> bool {
        chain_runs(self.registry(), self.names(), args, result)
    }

    fn name(&self) -> (r: &str)
        ensures
            r@ == "chain"@,
    {
        "chain"
    }

    fn description(&self) -> (r: &str)
        ensures
            r@ == "Runs a sequence of tools; each tool receives the previous output as its 'input' argument."@,
    {
        "Runs a sequence of tools; each tool receives the previous output as its 'input' argument."
    }

    /// The first tool's schema; the empty schema when the chain cannot find it.
    fn parameters_schema(&self) -> (r: Json)
        ensures
            (self.names().len() == 0 || !self.registry().has(self.names()[0])) ==> r.deep() == empty_schema_view(),
            self.names().len() > 0 ==> (self.registry().slot(self.names()[0]) matches Some(i) ==> (
                held::<dyn Tool>(&self.registry().tools_view()[i]).declared_schema() matches Some(s)
                    ==> r.deep() == s)),
    {
        match self.first_tool() {
            Ok(t) => t.parameters_schema(),
            Err(_) => empty_schema(),
        }
    }

    /// Runs the tools in order (see [`chain_runs`]): the first gets the
    /// arguments, each next one `{"input": <previous output>}`; the last
    /// output is the result, unwrapped. The first failure stops the chain,
    /// and an empty chain returns the arguments unchanged.
    fn execute(&self, args: Json) -> (r: Result<Json, ToolError>)
        ensures
            chain_runs(self.registry(), self.names(), args, r),
    {
        let n = self.tool_names.len();
        if n == 0 {
            return Ok(args);
        }
        let ghost reg = self.registry();
        let ghost names = self.names();
        let ghost mut ins: Seq<Json> = seq![args];
        let ghost mut outs: Seq<Json> = Seq::empty();
        let mut current = args;
        let mut i: usize = 0;
        loop
            invariant
                n == self.tool_names@.len(),
                n == names.len(),
                reg == self.registry(),
                names == self.names(),
                i < n,
                outs.len() == i,
                ins.len() == i + 1,
                ins[i as int] == current,
                chain_prefix(reg, names, args, ins, outs),
            decreases n - i,
        {
            assert(names[i as int] == self.tool_names@[i as int]@);
            let ghost input = current;
            let out = self.registry.execute(self.tool_names[i].as_str(), current);
            match out {
                Ok(v) => {
                    let ghost outs2 = outs.push(v);
                    if i + 1 == n {
                        assert forall|j: int| 0 <= j < outs2.len() implies #[trigger] chain_step(reg, names, ins, outs2, j) by {
                            if j < i {
                                assert(chain_step(reg, names, ins, outs, j));
                            }
                        }
                        assert(chain_prefix(reg, names, args, ins, outs2));
                        assert(chain_end(reg, names, ins, outs2, Ok::<Json, ToolError>(v)));
                        return Ok(v);
                    }
                    let ghost vg = v;
                    current = chain_link(v);
                    let ghost ins2 = ins.push(current);
                    assert forall|j: int| 0 <= j < outs2.len() implies #[trigger] chain_step(reg, names, ins2, outs2, j) by {
                        if j < i {
                            assert(chain_step(reg, names, ins, outs, j));
                        }
                    }
                    proof {
                        ins = ins2;
                        outs = outs2;
                    }
                },
                Err(e) => {
                    assert(chain_end(reg, names, ins, outs, Err::<Json, ToolError>(e)));
                    return Err(e);
                },
            }
            i += 1;
        }
    }
}

/// `{"type": ty, "description": desc}`.
pub open spec fn property_view(ty: Seq<char>, desc: Seq<char>) -> JsonView {
    JsonView::Object(seq![("type"@, JsonView::String(ty)), ("description"@, JsonView::String(desc))])
}

/// The property [`property_view`] describes.
pub(crate) fn property(ty: &str, desc: &str) -> (r: Json)
    ensures
        r.deep() == property_view(ty@, desc@),
{
    let mut fields: Vec<(String, Json)> = Vec::new();
    fields.push(member("type", Json::string(ty)));
    fields.push(member("description", Json::string(desc)));
    let r = Json::object(fields);
    assert(r.deep() matches JsonView::Object(xs) && property_view(ty@, desc@) matches JsonView::Object(ys) && xs =~= ys);
    r
}

/// `{"type": "object", "properties": props, "required": required}`.
pub open spec fn schema_view(props: Seq<(Seq<char>, JsonView)>, required: Seq<Seq<char>>) -> JsonView {
    JsonView::Object(seq![
        ("type"@, JsonView::String("object"@)),
        ("properties"@, JsonView::Object(props)),
        ("required"@, JsonView::Array(required.map_values(|s: Seq<char>| JsonView::String(s)))),
    ])
}

/// The file tool's argument schema.
pub open spec fn file_ops_schema_view() -> JsonView {
    schema_view(
        seq![
            ("operation"@, property_view("string"@, "One of: read, write, list, exists"@)),
            ("path"@, property_view("string"@, "Path relative to base directory"@)),
            ("content"@, property_view("string"@, "Content for write operation"@)),
        ],
        seq!["operation"@, "path"@],
    )
}

/// The HTTP tool's argument schema.
pub open spec fn http_schema_view() -> JsonView {
    schema_view(
        seq![
            ("url"@, property_view("string"@, "Request URL"@)),
            ("method"@, JsonView::Object(seq![
                ("type"@, JsonView::String("string"@)),
                ("description"@, JsonView::String("HTTP method, default GET"@)),
                ("default"@, JsonView::String("GET"@)),
            ])),
            ("headers"@, property_view("object"@, "Optional headers as key-value object"@)),
            ("body"@, property_view("string"@, "Optional request body"@)),
        ],
        seq!["url"@],
    )
}

/// A schema with the given properties and required argument names.
pub(crate) fn schema(props: Vec<(String, Json)>, required: Vec<String>) -> (r: Json)
    ensures
        r.deep() == schema_view(
            crate::json::members_view(props@),
            required@.map_values(|s: String| s@),
        ),
{
    let ghost pv = crate::json::members_view(props@);
    let ghost rv = required@.map_values(|s: String| s@);
    let mut top: Vec<(String, Json)> = Vec::new();
    top.push(member("type", Json::string("object")));
    top.push(member("properties", Json::object(props)));
    let req = Json::string_list(required);
    assert(req.deep() matches JsonView::Array(a)
        && a =~= rv.map_values(|s: Seq<char>| JsonView::String(s)));
    top.push(member("required", req));
    let r = Json::object(top);
    assert(r.deep() matches JsonView::Object(xs) && schema_view(pv, rv) matches JsonView::Object(ys) && xs =~= ys);
    r
}

/// Rejects a path argument holding `..`; otherwise the path without its leading `/`.
pub open spec fn relative_path_rule(path: Seq<char>) -> Result<Seq<char>, Seq<char>> {
    if has_infix(path, ".."@) {
        Err("path must not contain '..'"@)
    } else {
        Ok(trim_start_char(path, '/'))
    }
}

/// First step of resolving a file-tool path: a path holding `..` is refused
/// (`ValidationFailed`), otherwise its leading `/` characters are dropped so
/// that it joins under the base directory.
pub fn check_relative_path(path: &str) -> (r: Result<&str, ToolError>)
    ensures
        match relative_path_rule(path@) {
            Ok(rel) => r matches Ok(s) && s@ == rel,
            Err(msg) => r matches Err(ToolError::ValidationFailed(m)) && m@ == msg,
        },
{
    if contains_str(path, "..") {
        return Err(ToolError::ValidationFailed(String::from_str("path must not contain '..'")));
    }
    Ok(trim_start_matches_char(path, '/'))
}

/// `base` is a component-wise prefix of `full` (`Path::starts_with`).
pub open spec fn component_prefix(base: Seq<Seq<char>>, full: Seq<Seq<char>>) -> bool {
    base.len() <= full.len() && forall|i: int| 0 <= i < base.len() ==> #[trigger] base[i] == full[i]
}

/// Last step of resolving a file-tool path: the resolved path, given by its
/// components, must lie under the base directory; otherwise `ValidationFailed`.
pub fn check_within_base(base: &[String], full: &[String]) -> (r: Result<(), ToolError>)
    ensures
        component_prefix(base@.map_values(|s: String| s@), full@.map_values(|s: String| s@)) ==> r is Ok,
        !component_prefix(base@.map_values(|s: String| s@), full@.map_values(|s: String| s@)) ==> (
            r matches Err(ToolError::ValidationFailed(m)) && m@ == "path escapes base directory"@),
{
    let ghost b = base@.map_values(|s: String| s@);
    let ghost f = full@.map_values(|s: String| s@);
    if base.len() > full.len() {
        return Err(ToolError::ValidationFailed(String::from_str("path escapes base directory")));
    }
    let mut i: usize = 0;
    while i < base.len()
        invariant
            base@.len() <= full@.len(),
            i <= base@.len(),
            b == base@.map_values(|s: String| s@),
            f == full@.map_values(|s: String| s@),
            forall|k: int| 0 <= k < i ==> #[trigger] b[k] == f[k],
        decreases base@.len() - i,
    {
        if !str_eq(base[i].as_str(), full[i].as_str()) {
            assert(b[i as int] != f[i as int]);
            return Err(ToolError::ValidationFailed(String::from_str("path escapes base directory")));
        }
        i += 1;
    }
    Ok(())
}

/// What the file tool is asked to do.
#[derive(Debug)]
pub enum FileOp {
    /// Read the file's text.
    Read,
    /// Write `content` to the file, creating parent directories.
    Write(String),
    /// List the directory's entry names.
    List,
    /// Report whether the path exists.
    Exists,
}

/// The file tool's `operation` (lowercased) and `path` arguments, or the
/// message of the validation failure.
pub open spec fn file_request_rule(args: Json) -> Result<(Seq<char>, Seq<char>), Seq<char>> {
    match opt_text(args.field("operation"@)) {
        None => Err("missing or non-string 'operation'"@),
        Some(op) => match opt_text(args.field("path"@)) {
            None => Err("missing or non-string 'path'"@),
            Some(path) => Ok((lowercase(op), path)),
        },
    }
}

/// Reads the file tool's arguments: `operation` (a string, lowercased) and
/// `path` (a string); a missing or non-string one is a `ValidationFailed`.
pub fn file_request(args: &Json) -> (r: Result<(String, String), ToolError>)
    ensures
        match file_request_rule(*args) {
            Ok((op, path)) => r matches Ok((o, p)) && o@ == op && p@ == path,
            Err(msg) => r matches Err(ToolError::ValidationFailed(m)) && m@ == msg,
        },
        r matches Ok((o, _)) ==> (opt_text(args.field("operation"@)) matches Some(op) ==> (
            vstd::utf8::is_ascii_chars(op) ==> o@ == op.map_values(|c: char| ascii_lower_char(c)))),
{
    let op = match args.get("operation") {
        Some(v) => match v.as_str() {
            Some(s) => s,
            None => return Err(ToolError::ValidationFailed(String::from_str("missing or non-string 'operation'"))),
        },
        None => return Err(ToolError::ValidationFailed(String::from_str("missing or non-string 'operation'"))),
    };
    let op = to_lowercase(op);
    let path = match args.get("path") {
        Some(v) => match v.as_str() {
            Some(s) => s,
            None => return Err(ToolError::ValidationFailed(String::from_str("missing or non-string 'path'"))),
        },
        None => return Err(ToolError::ValidationFailed(String::from_str("missing or non-string 'path'"))),
    };
    Ok((op, String::from_str(path)))
}

/// The operation named `op` (already lowercased); `write` takes the `content`
/// argument, or the empty string when it is missing or not a string.
pub open spec fn file_op_rule(op: Seq<char>, args: Json) -> Result<Option<Seq<char>>, Seq<char>> {
    if op == "read"@ {
        Ok(None)
    } else if op == "write"@ {
        Ok(Some(match opt_text(args.field("content"@)) {
            Some(c) => c,
            None => Seq::empty(),
        }))
    } else if op == "list"@ || op == "exists"@ {
        Ok(None)
    } else {
        Err("unknown operation: "@ + op)
    }
}

/// Classifies the operation; an unknown one is a `ValidationFailed`.
pub fn file_op(op: &str, args: &Json) -> (r: Result<FileOp, ToolError>)
    ensures
        op@ == "read"@ ==> r matches Ok(FileOp::Read),
        op@ == "write"@ ==> (r matches Ok(FileOp::Write(c)) && file_op_rule(op@, *args) == Ok::<Option<Seq<char>>, Seq<char>>(Some(c@))),
        op@ == "list"@ ==> r matches Ok(FileOp::List),
        op@ == "exists"@ ==> r matches Ok(FileOp::Exists),
        file_op_rule(op@, *args) matches Err(msg) ==> (r matches Err(ToolError::ValidationFailed(m)) && m@ == msg),
        chooses_op(op@, *args, r),
{
    proof {
        reveal_strlit("read");
        reveal_strlit("write");
        reveal_strlit("list");
        reveal_strlit("exists");
        assert("read"@.len() != "write"@.len());
        assert("read"@ != "write"@);
        assert("read"@[0] != "list"@[0]);
        assert("read"@ != "list"@);
        assert("write"@[0] != "exists"@[0]);
        assert("write"@ != "exists"@);
    }
    if str_eq(op, "read") {
        Ok(FileOp::Read)
    } else if str_eq(op, "write") {
        let content = match args.get("content") {
            Some(v) => match v.as_str() {
                Some(s) => s,
                None => "",
            },
            None => "",
        };
        proof {
            reveal_strlit("");
        }
        assert(content@ == match opt_text(args.field("content"@)) {
            Some(c) => c,
            None => Seq::<char>::empty(),
        });
        let w = String::from_str(content);
        assert(file_op_rule(op@, *args) == Ok::<Option<Seq<char>>, Seq<char>>(Some(w@)));
        Ok(FileOp::Write(w))
    } else if str_eq(op, "list") {
        Ok(FileOp::List)
    } else if str_eq(op, "exists") {
        Ok(FileOp::Exists)
    } else {
        let mut m = String::from_str("unknown operation: ");
        m.append(op);
        Err(ToolError::ValidationFailed(m))
    }
}

/// `r` is the operation `op` names for `args` (see [`file_op_rule`]).
pub open spec fn chooses_op(op: Seq<char>, args: Json, r: Result<FileOp, ToolError>) -> bool {
    match file_op_rule(op, args) {
        Err(msg) => r matches Err(ToolError::ValidationFailed(m)) && m@ == msg,
        Ok(content) => if op == "read"@ {
            r matches Ok(FileOp::Read)
        } else if op == "write"@ {
            r matches Ok(FileOp::Write(c)) && content == Some(c@)
        } else if op == "list"@ {
            r matches Ok(FileOp::List)
        } else {
            r matches Ok(FileOp::Exists)
        },
    }
}

/// The file tool's request as read before any file is touched: the
/// operation (lowercased) and the path relative to the base directory; a
/// missing argument or a path holding `..` is refused (`ValidationFailed`).
pub fn file_target(args: &Json) -> (r: Result<(String, String), ToolError>)
    ensures
        match file_request_rule(*args) {
            Err(msg) => r matches Err(ToolError::ValidationFailed(m)) && m@ == msg,
            Ok((op, path)) => match relative_path_rule(path) {
                Ok(rel) => r matches Ok((o, p)) && o@ == op && p@ == rel,
                Err(msg) => r matches Err(ToolError::ValidationFailed(m)) && m@ == msg,
            },
        },
{
    let (op, path) = match file_request(args) {
        Ok(x) => x,
        Err(e) => return Err(e),
    };
    match check_relative_path(path.as_str()) {
        Ok(rel) => Ok((op, String::from_str(rel))),
        Err(e) => Err(e),
    }
}

/// What the file tool does once the path is resolved, decided before any
/// file is read or written: a resolved path (given by its components)
/// outside the base directory is refused; otherwise the operation `op`
/// names (see [`chooses_op`]).
pub fn file_action(op: &str, args: &Json, base: &[String], full: &[String]) -> (r: Result<FileOp, ToolError>)
    ensures
        !component_prefix(base@.map_values(|s: String| s@), full@.map_values(|s: String| s@)) ==> (
            r matches Err(ToolError::ValidationFailed(m)) && m@ == "path escapes base directory"@),
        component_prefix(base@.map_values(|s: String| s@), full@.map_values(|s: String| s@)) ==> chooses_op(op@, *args, r),
{
    match check_within_base(base, full) {
        Ok(()) => file_op(op, args),
        Err(e) => Err(e),
    }
}

/// `{"content": text}`: the result of reading a file.
pub fn read_output(text: &str) -> (r: Json)
    ensures
        r.deep() == JsonView::Object(seq![("content"@, JsonView::String(text@))]),
{
    Json::single("content", Json::string(text))
}

/// `{"written": true, "path": path}`: the result of writing a file.
pub fn write_output(path: &str) -> (r: Json)
    ensures
        r.deep() == JsonView::Object(seq![("written"@, JsonView::Bool(true)), ("path"@, JsonView::String(path@))]),
{
    let mut fields: Vec<(String, Json)> = Vec::new();
    fields.push(member("written", Json::boolean(true)));
    fields.push(member("path", Json::string(path)));
    let r = Json::object(fields);
    assert(r.deep() matches JsonView::Object(xs)
        && xs =~= seq![("written"@, JsonView::Bool(true)), ("path"@, JsonView::String(path@))]);
    r
}

/// `{"entries": names}`: the result of listing a directory.
pub fn list_output(names: Vec<String>) -> (r: Json)
    ensures
        r.deep() == JsonView::Object(seq![("entries"@, JsonView::Array(names@.map_values(|s: String| JsonView::String(s@))))]),
{
    Json::single("entries", Json::string_list(names))
}

/// `{"exists": exists}`: the result of an existence check.
pub fn exists_output(exists: bool) -> (r: Json)
    ensures
        r.deep() == JsonView::Object(seq![("exists"@, JsonView::Bool(exists))]),
{
    Json::single("exists", Json::boolean(exists))
}

/// A failed filesystem step: `ExecutionFailed("<step>: <cause>")`.
pub fn io_failure(step: &str, cause: &str) -> (r: ToolError)
    ensures
        r matches ToolError::ExecutionFailed(m) && m@ == step@ + ": "@ + cause@,
{
    let mut m = String::from_str(step);
    m.append(": ");
    m.append(cause);
    ToolError::ExecutionFailed(m)
}

/// File tool: read, write, list or check files under a base directory.
/// Paths are resolved under `base_dir` and must not escape it.
#[derive(Debug)]
pub struct FileOpsTool {
    base_dir: PathBuf,
}

impl FileOpsTool {
    /// The base directory.
    pub closed spec fn base(self) -> PathBuf {
        self.base_dir
    }

    /// A file tool restricted to `base_dir`.
    pub fn new(base_dir: PathBuf) -> (r: FileOpsTool)
        ensures
            r.base() == base_dir,
    {
        FileOpsTool { base_dir }
    }

    /// The base directory.
    pub fn base_dir(&self) -> (r: &PathBuf)
        ensures
            *r == self.base(),
    {
        &self.base_dir
    }

    /// The tool's name.
    pub fn name(&self) -> (r: &'static str)
        ensures
            r@ == "file_ops"@,
    {
        "file_ops"
    }

    /// What the tool does.
    pub fn description(&self) -> (r: &'static str)
        ensures
            r@ == "Read, write, list, or check existence of files under a base directory. Operations: read, write, list, exists."@,
    {
        "Read, write, list, or check existence of files under a base directory. Operations: read, write, list, exists."
    }

    /// The argument schema: `operation` and `path` required, `content` for writes.
    pub fn parameters_schema(&self) -> (r: Json)
        ensures
            r.deep() == file_ops_schema_view(),
    {
        let mut props: Vec<(String, Json)> = Vec::new();
        props.push(member("operation", property("string", "One of: read, write, list, exists")));
        props.push(member("path", property("string", "Path relative to base directory")));
        props.push(member("content", property("string", "Content for write operation")));
        let mut required: Vec<String> = Vec::new();
        required.push(String::from_str("operation"));
        required.push(String::from_str("path"));
        let ghost pv = crate::json::members_view(props@);
        let ghost rv = required@.map_values(|s: String| s@);
        let r = schema(props, required);
        assert(file_ops_schema_view() == schema_view(pv, rv)) by {
            assert(pv =~= seq![
                ("operation"@, property_view("string"@, "One of: read, write, list, exists"@)),
                ("path"@, property_view("string"@, "Path relative to base directory"@)),
                ("content"@, property_view("string"@, "Content for write operation"@)),
            ]);
            assert(rv =~= seq!["operation"@, "path"@]);
        }
        r
    }
}

/// The characters of request headers, as name/value pairs.
pub open spec fn headers_view(headers: Seq<(String, String)>) -> Seq<(Seq<char>, Seq<char>)> {
    headers.map_values(|h: (String, String)| (h.0@, h.1@))
}

/// The characters of an optional request body.
pub open spec fn body_view(body: Option<&str>) -> Option<Seq<char>> {
    match body {
        Some(b) => Some(b@),
        None => None,
    }
}

/// Backend that performs HTTP requests and returns the response body.
pub trait HttpFetcher: Send + Sync {
    /// `result` is an answer this fetcher may give to the request; by default
    /// any answer is.
    open spec fn answers(
        &self,
        url: Seq<char>,
        method: Seq<char>,
        headers: Seq<(Seq<char>, Seq<char>)>,
        body: Option<Seq<char>>,
        result: Result<String, ToolError>,
    ) -> bool {
        true
    }

    /// Performs the request; `headers` are name/value pairs.
    fn fetch(
        &self,
        url: &str,
        method: &str,
        headers: &[(String, String)],
        body: Option<&str>,
    ) -> (r: Result<String, ToolError>)
        ensures
            self.answers(url@, method@, headers_view(headers@), body_view(body), r);
}

/// Fetcher answering every request with a preset body.
#[derive(Debug, Clone)]
pub struct MockHttpFetcher {
    /// The body every fetch returns.
    pub response_body: String,
}

impl MockHttpFetcher {
    /// A fetcher answering `response_body` to every request.
    pub fn new(response_body: &str) -> (r: MockHttpFetcher)
        ensures
            r.response_body@ == response_body@,
    {
        MockHttpFetcher { response_body: String::from_str(response_body) }
    }
}

impl HttpFetcher for MockHttpFetcher {
    /// Every request is answered with the preset body.
    open spec fn answers(
        &self,
        url: Seq<char>,
        method: Seq<char>,
        headers: Seq<(Seq<char>, Seq<char>)>,
        body: Option<Seq<char>>,
        result: Result<String, ToolError>,
    ) -> bool {
        result matches Ok(b) && b@ == self.response_body@
    }

    fn fetch(
        &self,
        url: &str,
        method: &str,
        headers: &[(String, String)],
        body: Option<&str>,
    ) -> (r: Result<String, ToolError>) {
        Ok(self.response_body.clone())
    }
}

/// The request methods a real fetcher supports.
#[derive(Debug, Clone, Copy, PartialEq, Eq, Structural)]
pub enum HttpMethod {
    Get,
    Post,
    Put,
    Delete,
    Patch,
    Head,
}

/// The method named `method` (exactly, in upper case); any other name is
/// `ExecutionFailed("unsupported method: <method>")`.
pub fn http_method(method: &str) -> (r: Result<HttpMethod, ToolError>)
    ensures
        method@ == "GET"@ ==> r == Ok::<HttpMethod, ToolError>(HttpMethod::Get),
        method@ == "POST"@ ==> r == Ok::<HttpMethod, ToolError>(HttpMethod::Post),
        method@ == "PUT"@ ==> r == Ok::<HttpMethod, ToolError>(HttpMethod::Put),
        method@ == "DELETE"@ ==> r == Ok::<HttpMethod, ToolError>(HttpMethod::Delete),
        method@ == "PATCH"@ ==> r == Ok::<HttpMethod, ToolError>(HttpMethod::Patch),
        method@ == "HEAD"@ ==> r == Ok::<HttpMethod, ToolError>(HttpMethod::Head),
        !(method@ == "GET"@ || method@ == "POST"@ || method@ == "PUT"@ || method@ == "DELETE"@
            || method@ == "PATCH"@ || method@ == "HEAD"@) ==> (
            r matches Err(ToolError::ExecutionFailed(m)) && m@ == "unsupported method: "@ + method@),
{
    proof {
        reveal_strlit("GET");
        reveal_strlit("POST");
        reveal_strlit("PUT");
        reveal_strlit("DELETE");
        reveal_strlit("PATCH");
        reveal_strlit("HEAD");
        assert("GET"@[0] != "PUT"@[0]);
        assert("POST"@[0] != "HEAD"@[0]);
        assert("POST"@[1] != "PUT"@[1] && "POST"@[1] != "PATCH"@[1] && "PUT"@[1] != "PATCH"@[1]);
        assert("GET"@ != "PUT"@);
        assert("POST"@ != "HEAD"@);
        assert("GET"@ != "POST"@ && "GET"@ != "DELETE"@ && "GET"@ != "PATCH"@ && "GET"@ != "HEAD"@);
        assert("POST"@ != "PUT"@ && "POST"@ != "DELETE"@ && "POST"@ != "PATCH"@);
        assert("PUT"@ != "DELETE"@ && "PUT"@ != "PATCH"@ && "PUT"@ != "HEAD"@);
        assert("DELETE"@ != "PATCH"@ && "DELETE"@ != "HEAD"@ && "PATCH"@ != "HEAD"@);
    }
    if str_eq(method, "GET") {
        Ok(HttpMethod::Get)
    } else if str_eq(method, "POST") {
        Ok(HttpMethod::Post)
    } else if str_eq(method, "PUT") {
        Ok(HttpMethod::Put)
    } else if str_eq(method, "DELETE") {
        Ok(HttpMethod::Delete)
    } else if str_eq(method, "PATCH") {
        Ok(HttpMethod::Patch)
    } else if str_eq(method, "HEAD") {
        Ok(HttpMethod::Head)
    } else {
        let mut m = String::from_str("unsupported method: ");
        m.append(method);
        Err(ToolError::ExecutionFailed(m))
    }
}

/// A prepared HTTP call.
#[derive(Debug)]
pub struct HttpCall {
    pub url: String,
    pub method: String,
    pub headers: Vec<(String, String)>,
    pub body: Option<String>,
}

/// The position from `i` on of the pair named `name` among `hs`, if any.
pub open spec fn header_slot(hs: Seq<(Seq<char>, Seq<char>)>, name: Seq<char>, i: int) -> Option<int>
    decreases hs.len() - i,
{
    if i < 0 || i >= hs.len() {
        None
    } else if hs[i].0 == name {
        Some(i)
    } else {
        header_slot(hs, name, i + 1)
    }
}

/// `hs` with `name` set to `value`: the pair named `name` gets the new value
/// in place, or the pair is appended.
pub open spec fn upsert(hs: Seq<(Seq<char>, Seq<char>)>, name: Seq<char>, value: Seq<char>) -> Seq<(Seq<char>, Seq<char>)> {
    match header_slot(hs, name, 0) {
        Some(i) => hs.update(i, (name, value)),
        None => hs.push((name, value)),
    }
}

/// No two pairs of `hs` have the same name.
pub open spec fn distinct_names(hs: Seq<(Seq<char>, Seq<char>)>) -> bool {
    forall|a: int, b: int| 0 <= a < b < hs.len() ==> #[trigger] hs[a].0 != #[trigger] hs[b].0
}

/// The string-valued members of an object as name/value pairs, a name
/// occurring once: a later member of the same name sets the value.
pub open spec fn string_members(fields: Seq<(String, Json)>) -> Seq<(Seq<char>, Seq<char>)>
    decreases fields.len(),
{
    if fields.len() == 0 {
        Seq::empty()
    } else {
        let init = string_members(fields.drop_last());
        match fields.last().1.text() {
            Some(v) => upsert(init, fields.last().0@, v),
            None => init,
        }
    }
}

/// What [`header_slot`] finds.
proof fn lemma_header_slot(hs: Seq<(Seq<char>, Seq<char>)>, name: Seq<char>, i: int)
    requires
        0 <= i <= hs.len(),
    ensures
        match header_slot(hs, name, i) {
            Some(j) => i <= j < hs.len() && hs[j].0 == name,
            None => forall|k: int| i <= k < hs.len() ==> hs[k].0 != name,
        },
    decreases hs.len() - i,
{
    if i < hs.len() && hs[i].0 != name {
        lemma_header_slot(hs, name, i + 1);
    }
}

/// Setting a name keeps names distinct.
proof fn lemma_upsert_distinct(hs: Seq<(Seq<char>, Seq<char>)>, name: Seq<char>, value: Seq<char>)
    requires
        distinct_names(hs),
    ensures
        distinct_names(upsert(hs, name, value)),
{
    lemma_header_slot(hs, name, 0);
    let u = upsert(hs, name, value);
    match header_slot(hs, name, 0) {
        Some(i) => {
            assert forall|a: int, b: int| 0 <= a < b < u.len() implies #[trigger] u[a].0 != #[trigger] u[b].0 by {
                assert(hs[a].0 != hs[b].0);
            }
        },
        None => {
            assert forall|a: int, b: int| 0 <= a < b < u.len() implies #[trigger] u[a].0 != #[trigger] u[b].0 by {
                if b < hs.len() {
                    assert(hs[a].0 != hs[b].0);
                }
            }
        },
    }
}

/// The string members of an object never repeat a name.
pub proof fn lemma_string_members_distinct(fields: Seq<(String, Json)>)
    ensures
        distinct_names(string_members(fields)),
    decreases fields.len(),
{
    if fields.len() > 0 {
        lemma_string_members_distinct(fields.drop_last());
        if let Some(v) = fields.last().1.text() {
            lemma_upsert_distinct(string_members(fields.drop_last()), fields.last().0@, v);
        }
    }
}

/// The headers argument: the string-valued members of `headers` when it is an object.
pub open spec fn headers_rule(args: Json) -> Seq<(Seq<char>, Seq<char>)> {
    match args.field("headers"@) {
        Some(Json::Object(fields)) => string_members(fields@),
        _ => Seq::empty(),
    }
}

/// The call the HTTP tool makes for `args`: `url` (required string), `method`
/// (uppercased, default `GET`), string-valued `headers`, optional string `body`.
pub open spec fn http_call_rule(args: Json) -> Option<(Seq<char>, Seq<char>, Seq<(Seq<char>, Seq<char>)>, Option<Seq<char>>)> {
    match opt_text(args.field("url"@)) {
        None => None,
        Some(url) => Some((
            url,
            uppercase(match opt_text(args.field("method"@)) {
                Some(m) => m,
                None => "GET"@,
            }),
            headers_rule(args),
            opt_text(args.field("body"@)),
        )),
    }
}

/// The `method` argument, `GET` when it is missing or not a string.
pub open spec fn method_text(args: Json) -> Seq<char> {
    match opt_text(args.field("method"@)) {
        Some(m) => m,
        None => "GET"@,
    }
}

/// The position of the pair named `name` in `hs` (see [`header_slot`]).
fn find_header(hs: &Vec<(String, String)>, name: &str) -> (r: Option<usize>)
    ensures
        match r {
            Some(i) => i < hs@.len() && header_slot(hs@.map_values(|h: (String, String)| (h.0@, h.1@)), name@, 0) == Some(i as int),
            None => header_slot(hs@.map_values(|h: (String, String)| (h.0@, h.1@)), name@, 0) is None,
        },
{
    let ghost v = hs@.map_values(|h: (String, String)| (h.0@, h.1@));
    let mut i: usize = 0;
    while i < hs.len()
        invariant
            i <= hs@.len(),
            v == hs@.map_values(|h: (String, String)| (h.0@, h.1@)),
            header_slot(v, name@, 0) == header_slot(v, name@, i as int),
        decreases hs@.len() - i,
    {
        assert(v[i as int].0 == hs@[i as int].0@);
        if str_eq(hs[i].0.as_str(), name) {
            return Some(i);
        }
        i += 1;
    }
    None
}

/// The string-valued members of `fields` (see [`string_members`]).
fn collect_string_members(fields: &Vec<(String, Json)>) -> (r: Vec<(String, String)>)
    ensures
        r@.map_values(|h: (String, String)| (h.0@, h.1@)) == string_members(fields@),
{
    let mut out: Vec<(String, String)> = Vec::new();
    let mut i: usize = 0;
    while i < fields.len()
        invariant
            i <= fields@.len(),
            out@.map_values(|h: (String, String)| (h.0@, h.1@)) == string_members(fields@.take(i as int)),
        decreases fields@.len() - i,
    {
        assert(fields@.take(i + 1).drop_last() =~= fields@.take(i as int));
        assert(fields@.take(i + 1).last() == fields@[i as int]);
        let ghost before = out@;
        let ghost bv = before.map_values(|h: (String, String)| (h.0@, h.1@));
        match fields[i].1.as_str() {
            Some(v) => {
                let name = fields[i].0.clone();
                match find_header(&out, name.as_str()) {
                    Some(j) => {
                        let entry = (name, String::from_str(v));
                        let ghost e = entry;
                        out.set(j, entry);
                        assert(out@ == before.update(j as int, e));
                        assert(out@.map_values(|h: (String, String)| (h.0@, h.1@)) =~= bv.update(
                            j as int,
                            (fields@[i as int].0@, v@),
                        ));
                    },
                    None => {
                        out.push((name, String::from_str(v)));
                        assert(out@.map_values(|h: (String, String)| (h.0@, h.1@)) =~= bv.push((fields@[i as int].0@, v@)));
                    },
                }
            },
            None => {},
        }
        i += 1;
    }
    assert(fields@.take(fields@.len() as int) =~= fields@);
    out
}

/// Reads the HTTP tool's arguments; a missing or non-string `url` is a `ValidationFailed`.
pub fn prepare_http_call(args: &Json) -> (r: Result<HttpCall, ToolError>)
    ensures
        match http_call_rule(*args) {
            None => r matches Err(ToolError::ValidationFailed(m)) && m@ == "missing or non-string 'url'"@,
            Some((url, method, headers, body)) => r matches Ok(c) && c.url@ == url && c.method@ == method
                && c.headers@.map_values(|h: (String, String)| (h.0@, h.1@)) == headers
                && match c.body {
                    Some(b) => body == Some(b@),
                    None => body is None,
                },
        },
        r matches Ok(c) ==> (vstd::utf8::is_ascii_chars(method_text(*args)) ==> c.method@ == method_text(*args).map_values(
            |ch: char| ascii_upper_char(ch),
        )),
        r matches Ok(c) ==> distinct_names(c.headers@.map_values(|h: (String, String)| (h.0@, h.1@))),
{
    let url = match args.get("url") {
        Some(v) => match v.as_str() {
            Some(s) => String::from_str(s),
            None => return Err(ToolError::ValidationFailed(String::from_str("missing or non-string 'url'"))),
        },
        None => return Err(ToolError::ValidationFailed(String::from_str("missing or non-string 'url'"))),
    };
    let method_arg = match args.get("method") {
        Some(v) => match v.as_str() {
            Some(s) => s,
            None => "GET",
        },
        None => "GET",
    };
    let method = to_uppercase(method_arg);
    let headers = match args.get("headers") {
        Some(Json::Object(fields)) => {
            proof {
                lemma_string_members_distinct(fields@);
            }
            collect_string_members(fields)
        },
        _ => {
            let v: Vec<(String, String)> = Vec::new();
            assert(v@.map_values(|h: (String, String)| (h.0@, h.1@)) =~= Seq::<(Seq<char>, Seq<char>)>::empty());
            v
        },
    };
    let body = match args.get("body") {
        Some(v) => match v.as_str() {
            Some(s) => Some(String::from_str(s)),
            None => None,
        },
        None => None,
    };
    Ok(HttpCall { url, method, headers, body })
}

/// `{"status": "ok", "body": body}`: the HTTP tool's result.
pub fn http_output(body: &str) -> (r: Json)
    ensures
        r.deep() == JsonView::Object(seq![("status"@, JsonView::String("ok"@)), ("body"@, JsonView::String(body@))]),
{
    let mut fields: Vec<(String, Json)> = Vec::new();
    fields.push(member("status", Json::string("ok")));
    fields.push(member("body", Json::string(body)));
    let r = Json::object(fields);
    assert(r.deep() matches JsonView::Object(xs)
        && xs =~= seq![("status"@, JsonView::String("ok"@)), ("body"@, JsonView::String(body@))]);
    r
}

/// HTTP tool: requests the given URL through its fetcher.
pub struct HttpRequestTool<F: HttpFetcher + ?Sized = dyn HttpFetcher> {
    fetcher: Box<F>,
}

/// What the HTTP tool answers: `{"status": "ok", "body": body}`.
pub open spec fn http_output_view(body: Seq<char>) -> JsonView {
    JsonView::Object(seq![("status"@, JsonView::String("ok"@)), ("body"@, JsonView::String(body))])
}

/// `result` is what the HTTP tool gives for `args` with `fetcher`: a
/// validation error without a string `url`; otherwise, for an answer the
/// fetcher may give to the prepared call (see [`http_call_rule`]), the
/// fetched body wrapped by [`http_output_view`], or the fetch error unchanged.
pub open spec fn http_runs<F: HttpFetcher + ?Sized>(fetcher: &F, args: Json, result: Result<Json, ToolError>) -> bool {
    match http_call_rule(args) {
        None => result matches Err(ToolError::ValidationFailed(m)) && m@ == "missing or non-string 'url'"@,
        Some((url, method, headers, body)) => exists|res: Result<String, ToolError>|
            #[trigger] fetcher.answers(url, method, headers, body, res) && match (res, result) {
                (Ok(b), Ok(v)) => v.deep() == http_output_view(b@),
                (Err(e), Err(e2)) => e2 == e,
                _ => false,
            },
    }
}

impl<F: HttpFetcher + ?Sized> HttpRequestTool<F> {
    /// The fetcher the tool's requests go through.
    pub closed spec fn fetcher(self) -> Box<F> {
        self.fetcher
    }

    /// A tool using `fetcher` for its requests.
    pub fn new(fetcher: Box<F>) -> (r: HttpRequestTool<F>)
        ensures
            r.fetcher() == fetcher,
    {
        HttpRequestTool { fetcher }
    }
}

impl<F: HttpFetcher + ?Sized> Tool for HttpRequestTool<F> {
    open spec fn declared_name(&self) -> Option<Seq<char>> {
        Some("http_request"@)
    }

    open spec fn declared_schema(&self) -> Option<JsonView> {
        Some(http_schema_view())
    }

    /// See [`http_runs`].
    open spec fn runs(&self, args: Json, result: Result<Json, ToolError>) -> bool {
        http_runs(&*self.fetcher(), args, result)
    }

    fn name(&self) -> (r: &str)
        ensures
            r@ == "http_request"@,
    {
        "http_request"
    }

    fn description(&self) -> (r: &str)
        ensures
            r@ == "Makes an HTTP request to the given URL. Supports method, headers, and optional body."@,
    {
        "Makes an HTTP request to the given URL. Supports method, headers, and optional body."
    }

    /// The argument schema: `url` required; `method`, `headers`, `body` optional.
    fn parameters_schema(&self) -> (r: Json)
        ensures
            r.deep() == http_schema_view(),
    {
        let mut method: Vec<(String, Json)> = Vec::new();
        method.push(member("type", Json::string("string")));
        method.push(member("description", Json::string("HTTP method, default GET")));
        method.push(member("default", Json::string("GET")));
        let method = Json::object(method);
        let mut props: Vec<(String, Json)> = Vec::new();
        props.push(member("url", property("string", "Request URL")));
        props.push(member("method", method));
        props.push(member("headers", property("object", "Optional headers as key-value object")));
        props.push(member("body", property("string", "Optional request body")));
        let mut required: Vec<String> = Vec::new();
        required.push(String::from_str("url"));
        let ghost pv = crate::json::members_view(props@);
        let ghost rv = required@.map_values(|s: String| s@);
        let r = schema(props, required);
        assert(http_schema_view() == schema_view(pv, rv)) by {
            assert(pv[1].1 matches JsonView::Object(m) && m =~= seq![
                ("type"@, JsonView::String("string"@)),
                ("description"@, JsonView::String("HTTP method, default GET"@)),
                ("default"@, JsonView::String("GET"@)),
            ]);
            assert(pv =~= seq![
                ("url"@, property_view("string"@, "Request URL"@)),
                ("method"@, JsonView::Object(seq![
                    ("type"@, JsonView::String("string"@)),
                    ("description"@, JsonView::String("HTTP method, default GET"@)),
                    ("default"@, JsonView::String("GET"@)),
                ])),
                ("headers"@, property_view("object"@, "Optional headers as key-value object"@)),
                ("body"@, property_view("string"@, "Optional request body"@)),
            ]);
            assert(rv =~= seq!["url"@]);
        }
        r
    }

    /// Reads the arguments ([`prepare_http_call`]), fetches, and answers
    /// `{"status": "ok", "body": <response body>}`; a fetch failure is
    /// returned as is (see [`http_runs`]).
    fn execute(&self, args: Json) -> (r: Result<Json, ToolError>) {
        let call = match prepare_http_call(&args) {
            Ok(c) => c,
            Err(e) => return Err(e),
        };
        let body = match &call.body {
            Some(b) => Some(b.as_str()),
            None => None,
        };
        let resp = self.fetcher.fetch(call.url.as_str(), call.method.as_str(), call.headers.as_slice(), body);
        let ghost res = resp;
        match resp {
            Ok(text) => {
                let out = http_output(text.as_str());
                assert(self.fetcher().answers(call.url@, call.method@, headers_view(call.headers@), body_view(body), res));
                Ok(out)
            },
            Err(e) => {
                assert(self.fetcher().answers(call.url@, call.method@, headers_view(call.headers@), body_view(body), res));
                Err(e)
            },
        }
    }
}

} // verus!

