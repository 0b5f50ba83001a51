//! A plain-value model of a JSON document.
//!
//! Event payloads, tool arguments and search responses are JSON documents.
//! The library reads them through this model, which holds exactly what a
//! parsed document holds: objects keep their members in order, numbers keep
//! the integer they denote (or the bit pattern of a non-integral number).

use vstd::prelude::*;
use crate::text::str_eq;

verus! {

/// A JSON number, classified the way a JSON parser classifies it.
#[derive(Debug, PartialEq, Eq)]
pub enum JsonNumber {
    /// A non-negative integer.
    PosInt(u64),
    /// A negative integer.
    NegInt(i64),
    /// Any other number, held as the IEEE-754 bit pattern of its `f64` value.
    Float(u64),
}

/// A JSON value.
#[derive(Debug, PartialEq, Eq)]
pub enum Json {
    Null,
    Bool(bool),
    Number(JsonNumber),
    String(String),
    Array(Vec<Json>),
    /// Object members in document order.
    Object(Vec<(String, Json)>),
}

/// What a JSON value denotes: strings as their characters, all the way down.
pub enum JsonView {
    Null,
    Bool(bool),
    Number(JsonNumber),
    String(Seq<char>),
    Array(Seq<JsonView>),
    Object(Seq<(Seq<char>, JsonView)>),
}

/// What object members denote: each name's characters with what its value denotes.
pub open spec fn members_view(fields: Seq<(String, Json)>) -> Seq<(Seq<char>, JsonView)> {
    fields.map_values(|f: (String, Json)| (f.0@, f.1.deep()))
}

/// A member named `key` holding `value`.
pub fn member(key: &str, value: Json) -> (r: (String, Json))
    ensures
        r.0@ == key@,
        r.1 == value,
{
    (String::from_str(key), value)
}

/// The value of the first member named `key` among `fields`.
pub open spec fn lookup(fields: Seq<(String, Json)>, key: Seq<char>) -> Option<Json>
    decreases fields.len(),
{
    if fields.len() == 0 {
        None
    } else if fields[0].0@ == key {
        Some(fields[0].1)
    } else {
        lookup(fields.drop_first(), key)
    }
}

/// Member `key` of `o` when `o` is present (`Option::and_then` with `get`).
pub open spec fn opt_field(o: Option<Json>, key: Seq<char>) -> Option<Json> {
    match o {
        Some(j) => j.field(key),
        None => None,
    }
}

/// The characters of `o` when it is a present JSON string.
pub open spec fn opt_text(o: Option<Json>) -> Option<Seq<char>> {
    match o {
        Some(j) => j.text(),
        None => None,
    }
}

/// `a`, or `b` when `a` is absent (`Option::or`).
pub open spec fn either<T>(a: Option<T>, b: Option<T>) -> Option<T> {
    match a {
        Some(x) => Some(x),
        None => b,
    }
}

/// Reads an optional borrowed value as an optional value.
pub open spec fn deref_opt(o: Option<&Json>) -> Option<Json> {
    match o {
        Some(j) => Some(*j),
        None => None,
    }
}

/// How a JSON parser classifies the integer `n`.
pub open spec fn int_number(n: i64) -> JsonNumber {
    if n < 0 {
        JsonNumber::NegInt(n)
    } else {
        JsonNumber::PosInt(n as u64)
    }
}

impl JsonNumber {
    /// The number as a `u64`, when it is a non-negative integer.
    pub open spec fn u64_value(self) -> Option<u64> {
        match self {
            JsonNumber::PosInt(n) => Some(n),
            _ => None,
        }
    }

    /// The number as an `i64`, when it is an integer in range.
    pub open spec fn i64_value(self) -> Option<i64> {
        match self {
            JsonNumber::PosInt(n) => if n <= i64::MAX { Some(n as i64) } else { None },
            JsonNumber::NegInt(n) => Some(n),
            JsonNumber::Float(_) => None,
        }
    }
}

impl Json {
    /// What this value denotes.
    pub open spec fn deep(self) -> JsonView
        decreases self,
    {
        match self {
            Json::Null => JsonView::Null,
            Json::Bool(b) => JsonView::Bool(b),
            Json::Number(n) => JsonView::Number(n),
            Json::String(s) => JsonView::String(s@),
            Json::Array(items) => JsonView::Array(
                Seq::new(items@.len(), |i: int| if 0 <= i < items@.len() { items@[i].deep() } else { JsonView::Null }),
            ),
            Json::Object(fields) => JsonView::Object(
                Seq::new(
                    fields@.len(),
                    |i: int| if 0 <= i < fields@.len() { (fields@[i].0@, fields@[i].1.deep()) } else { (Seq::empty(), JsonView::Null) },
                ),
            ),
        }
    }

    /// Member `key` of this value; absent unless this is an object holding it.
    pub open spec fn field(self, key: Seq<char>) -> Option<Json> {
        match self {
            Json::Object(fields) => lookup(fields@, key),
            _ => None,
        }
    }

    /// The characters of this value when it is a string.
    pub open spec fn text(self) -> Option<Seq<char>> {
        match self {
            Json::String(s) => Some(s@),
            _ => None,
        }
    }

    /// This value is an object.
    pub open spec fn is_obj(self) -> bool {
        self is Object
    }

    /// Member `key`, like `serde_json::Value::get` with a string index.
    pub fn get(&self, key: &str) -> (r: Option<&Json>)
        ensures
            deref_opt(r) == self.field(key@),
    {
        match self {
            Json::Object(fields) => {
                let n = fields.len();
                let mut i: usize = 0;
                assert(fields@.subrange(0, n as int) =~= fields@);
                while i < n
                    invariant
                        n == fields@.len(),
                        i <= n,
                        self.field(key@) == lookup(fields@, key@),
                        lookup(fields@, key@) == lookup(fields@.subrange(i as int, n as int), key@),
                    decreases n - i,
                {
                    let ghost rest = fields@.subrange(i as int, n as int);
                    assert(rest[0] == fields@[i as int]);
                    assert(rest.len() > 0);
                    if str_eq(fields[i].0.as_str(), key) {
                        assert(lookup(rest, key@) == Some(rest[0].1));
                        let found = &fields[i].1;
                        return Some(found);
                    }
                    assert(rest.drop_first() =~= fields@.subrange(i + 1, n as int));
                    i += 1;
                }
                None
            },
            _ => None,
        }
    }

    /// The string slice this value holds, when it is a string.
    pub fn as_str(&self) -> (r: Option<&str>)
        ensures
            match r {
                Some(s) => self.text() == Some(s@),
                None => self.text() is None,
            },
    {
        match self {
            Json::String(s) => Some(s.as_str()),
            _ => None,
        }
    }

    /// A JSON string holding `s`.
    pub fn string(s: &str) -> (r: Json)
        ensures
            r.deep() == JsonView::String(s@),
    {
        Json::String(String::from_str(s))
    }

    /// An object with the single member `key: value`.
    pub fn single(key: &str, value: Json) -> (r: Json)
        ensures
            r.deep() == JsonView::Object(seq![(key@, value.deep())]),
    {
        let mut fields: Vec<(String, Json)> = Vec::new();
        fields.push((String::from_str(key), value));
        let r = Json::Object(fields);
        assert(r.deep() matches JsonView::Object(fs) && fs =~= seq![(key@, value.deep())]);
        r
    }

    /// A JSON boolean.
    pub fn boolean(b: bool) -> (r: Json)
        ensures
            r.deep() == JsonView::Bool(b),
    {
        Json::Bool(b)
    }

    /// An object whose members are `fields`, in order.
    pub fn object(fields: Vec<(String, Json)>) -> (r: Json)
        ensures
            r.deep() == JsonView::Object(members_view(fields@)),
    {
        let r = Json::Object(fields);
        assert(r.deep() matches JsonView::Object(xs) && xs =~= members_view(fields@));
        r
    }

    /// An array of JSON strings holding `items`, in order.
    pub fn strings(items: &[&str]) -> (r: Json)
        ensures
            r.deep() == JsonView::Array(items@.map_values(|s: &str| JsonView::String(s@))),
    {
        let mut out: Vec<Json> = Vec::new();
        let mut i: usize = 0;
        while i < items.len()
            invariant
                i <= items@.len(),
                out@.len() == i,
                forall|k: int| 0 <= k < i ==> (#[trigger] out@[k]).deep() == JsonView::String(items@[k]@),
            decreases items@.len() - i,
        {
            out.push(Json::string(items[i]));
            i += 1;
        }
        let r = Json::Array(out);
        assert(r.deep() matches JsonView::Array(xs) && xs =~= items@.map_values(|s: &str| JsonView::String(s@)));
        r
    }

    /// An array of JSON strings holding `items`, in order.
    pub fn string_list(items: Vec<String>) -> (r: Json)
        ensures
            r.deep() == JsonView::Array(items@.map_values(|s: String| JsonView::String(s@))),
    {
        let mut out: Vec<Json> = Vec::new();
        let mut i: usize = 0;
        while i < items.len()
            invariant
                i <= items@.len(),
                out@.len() == i,
                forall|k: int| 0 <= k < i ==> (#[trigger] out@[k]).deep() == JsonView::String(items@[k]@),
            decreases items@.len() - i,
        {
            out.push(Json::string(items[i].as_str()));
            i += 1;
        }
        let r = Json::Array(out);
        assert(r.deep() matches JsonView::Array(xs) && xs =~= items@.map_values(|s: String| JsonView::String(s@)));
        r
    }

    /// A copy of this value.
    pub fn duplicate(&self) -> (r: Json)
        ensures
            r.deep() == self.deep(),
        decreases self,
    {
        match self {
            Json::Null => Json::Null,
            Json::Bool(b) => Json::Bool(*b),
            Json::Number(n) => Json::Number(match n {
                JsonNumber::PosInt(v) => JsonNumber::PosInt(*v),
                JsonNumber::NegInt(v) => JsonNumber::NegInt(*v),
                JsonNumber::Float(v) => JsonNumber::Float(*v),
            }),
            Json::String(s) => Json::String(s.clone()),
            Json::Array(items) => {
                let mut out: Vec<Json> = Vec::new();
                let mut i: usize = 0;
                while i < items.len()
                    invariant
                        *self == Json::Array(*items),
                        i <= items@.len(),
                        out@.len() == i,
                        forall|k: int| 0 <= k < i ==> (#[trigger] out@[k]).deep() == items@[k].deep(),
                    decreases items@.len() - i,
                {
                    proof {
                        assert(decreases_to!(*self => (*self)->Array_0));
                        assert(decreases_to!(*items => items@));
                        assert(decreases_to!(items@ => items@[i as int]));
                    }
                    out.push(items[i].duplicate());
                    i += 1;
                }
                let r = Json::Array(out);
                assert(r.deep() matches JsonView::Array(xs) && self.deep() matches JsonView::Array(ys) && xs =~= ys);
                r
            },
            Json::Object(fields) => {
                let mut out: Vec<(String, Json)> = Vec::new();
                let mut i: usize = 0;
                while i < fields.len()
                    invariant
                        *self == Json::Object(*fields),
                        i <= fields@.len(),
                        out@.len() == i,
                        forall|k: int| 0 <= k < i ==> (#[trigger] out@[k]).0@ == fields@[k].0@
                            && out@[k].1.deep() == fields@[k].1.deep(),
                    decreases fields@.len() - i,
                {
                    proof {
                        assert(decreases_to!(*self => (*self)->Object_0));
                        assert(decreases_to!(*fields => fields@));
                        assert(decreases_to!(fields@ => fields@[i as int]));
                        assert(decreases_to!(fields@[i as int] => fields@[i as int].1));
                    }
                    out.push((fields[i].0.clone(), fields[i].1.duplicate()));
                    i += 1;
                }
                let r = Json::Object(out);
                assert(r.deep() matches JsonView::Object(xs) && self.deep() matches JsonView::Object(ys) && xs =~= ys);
                r
            },
        }
    }

    /// The number this value holds as a `u64`, when it is a non-negative integer.
    pub fn as_u64(&self) -> (r: Option<u64>)
        ensures
            r == match *self {
                Json::Number(n) => n.u64_value(),
                _ => None,
            },
    {
        match self {
            Json::Number(JsonNumber::PosInt(n)) => Some(*n),
            _ => None,
        }
    }

    /// The number this value holds as an `i64`, when it is an integer in range.
    pub fn as_i64(&self) -> (r: Option<i64>)
        ensures
            r == match *self {
                Json::Number(n) => n.i64_value(),
                _ => None,
            },
    {
        match self {
            Json::Number(JsonNumber::PosInt(n)) => if *n <= 0x7fff_ffff_ffff_ffffu64 {
                Some(*n as i64)
            } else {
                None
            },
            Json::Number(JsonNumber::NegInt(n)) => Some(*n),
            _ => None,
        }
    }

    /// The JSON number for `n`, classified as a parser would classify it.
    pub fn from_i64(n: i64) -> (r: Json)
        ensures
            r == Json::Number(int_number(n)),
    {
        if n < 0 {
            Json::Number(JsonNumber::NegInt(n))
        } else {
            Json::Number(JsonNumber::PosInt(n as u64))
        }
    }

    /// Whether this value is an object.
    pub fn is_object(&self) -> (r: bool)
        ensures
            r == self.is_obj(),
    {
        match self {
            Json::Object(_) => true,
            _ => false,
        }
    }
}

} // verus!
