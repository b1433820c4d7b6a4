use vstd::prelude::*;
use crate::text::same_text;

verus! {

/// A JSON number: a non-negative integer, a negative integer, or any other
/// number, which the library only carries along as its text.
pub enum JsonNumber {
    Unsigned(u64),
    Negative(i64),
    Fractional(String),
}

/// A JSON value. An object keeps its members in order; the logic reads the
/// first member with a given key.
pub enum Json {
    Null,
    Bool(bool),
    Number(JsonNumber),
    Str(String),
    Array(Vec<Json>),
    Object(Vec<(String, Json)>),
}

/// The mathematical view of a [`JsonNumber`].
pub enum NumberView {
    Unsigned(u64),
    Negative(i64),
    Fractional(Seq<char>),
}

/// The mathematical view of a [`Json`] value.
pub enum JsonView {
    Null,
    Bool(bool),
    Number(NumberView),
    Str(Seq<char>),
    Array(Seq<JsonView>),
    Object(Seq<(Seq<char>, JsonView)>),
}

impl JsonNumber {
    pub open spec fn view(&self) -> NumberView {
        match self {
            JsonNumber::Unsigned(n) => NumberView::Unsigned(*n),
            JsonNumber::Negative(n) => NumberView::Negative(*n),
            JsonNumber::Fractional(s) => NumberView::Fractional(s@),
        }
    }
}

impl Json {
    pub open spec fn json_view(&self) -> JsonView
        decreases self,
    {
        match self {
            Json::Null => JsonView::Null,
            Json::Bool(b) => JsonView::Bool(*b),
            Json::Number(n) => JsonView::Number(n.view()),
            Json::Str(s) => JsonView::Str(s@),
            Json::Array(items) => JsonView::Array(
                Seq::new(items@.len(), |i: int| if 0 <= i < items@.len() { items[i].json_view() } else { JsonView::Null }),
            ),
            Json::Object(entries) => JsonView::Object(
                Seq::new(entries@.len(), |i: int| if 0 <= i < entries@.len() { (entries[i].0@, entries[i].1.json_view()) } else { (Seq::empty(), JsonView::Null) }),
            ),
        }
    }
}

/// The value of the first member of `entries` whose key is `key`.
pub open spec fn lookup(entries: Seq<(Seq<char>, JsonView)>, key: Seq<char>) -> Option<JsonView>
    decreases entries.len(),
{
    if entries.len() == 0 {
        None
    } else if entries[0].0 == key {
        Some(entries[0].1)
    } else {
        lookup(entries.drop_first(), key)
    }
}

impl JsonView {
    /// The member `key` of an object (`serde_json::Value::get` with a string key).
    pub open spec fn get(self, key: Seq<char>) -> Option<JsonView> {
        match self {
            JsonView::Object(entries) => lookup(entries, key),
            _ => None,
        }
    }

    pub open spec fn as_str(self) -> Option<Seq<char>> {
        match self {
            JsonView::Str(s) => Some(s),
            _ => None,
        }
    }

    pub open spec fn as_u64(self) -> Option<u64> {
        match self {
            JsonView::Number(NumberView::Unsigned(n)) => Some(n),
            _ => None,
        }
    }

    pub open spec fn as_array(self) -> Option<Seq<JsonView>> {
        match self {
            JsonView::Array(items) => Some(items),
            _ => None,
        }
    }

    pub open spec fn is_null(self) -> bool {
        self is Null
    }

    /// The value of the first member of an object.
    pub open spec fn first_member_value(self) -> Option<JsonView> {
        match self {
            JsonView::Object(entries) => if entries.len() > 0 {
                Some(entries[0].1)
            } else {
                None
            },
            _ => None,
        }
    }
}

/// The text of member `key` when it is a string.
pub open spec fn member_str(v: JsonView, key: Seq<char>) -> Option<Seq<char>> {
    match v.get(key) {
        Some(m) => m.as_str(),
        None => None,
    }
}

/// The view of an optional reference to a value.
pub open spec fn opt_view(o: Option<&Json>) -> Option<JsonView> {
    match o {
        Some(x) => Some(x@),
        None => None,
    }
}

impl View for Json {
    type V = JsonView;

    open spec fn view(&self) -> JsonView {
        self.json_view()
    }
}

impl Json {
    /// A copy of the value.
    pub fn deep_copy(&self) -> (r: Json)
        ensures
            r@ == self@,
        decreases self,
    {
        match self {
            Json::Null => Json::Null,
            Json::Bool(b) => Json::Bool(*b),
            Json::Number(JsonNumber::Unsigned(n)) => Json::Number(JsonNumber::Unsigned(*n)),
            Json::Number(JsonNumber::Negative(n)) => Json::Number(JsonNumber::Negative(*n)),
            Json::Number(JsonNumber::Fractional(t)) => Json::Number(JsonNumber::Fractional(t.clone())),
            Json::Str(s) => Json::Str(s.clone()),
            Json::Array(items) => {
                let mut out: Vec<Json> = Vec::new();
                let mut i: usize = 0;
                while i < items.len()
                    invariant
                        *self == Json::Array(*items),
                        i <= items@.len(),
                        out@.len() == i,
                        forall|k: int| 0 <= k < i ==> (#[trigger] out@[k])@ == items@[k]@,
                    decreases items@.len() - i,
                {
                    proof {
                        vstd::std_specs::vec::axiom_vec_index_decreases(*items, i as int);
                        assert(decreases_to!(*self => (*self)->Array_0));
                    }
                    out.push(items[i].deep_copy());
                    i = i + 1;
                }
                let r = Json::Array(out);
                assert(r@->Array_0 =~= self@->Array_0);
                r
            },
            Json::Object(entries) => {
                let mut out: Vec<(String, Json)> = Vec::new();
                let mut i: usize = 0;
                while i < entries.len()
                    invariant
                        *self == Json::Object(*entries),
                        i <= entries@.len(),
                        out@.len() == i,
                        forall|k: int| 0 <= k < i ==> (#[trigger] out@[k]).0@ == entries@[k].0@ && out@[k].1@ == entries@[k].1@,
                    decreases entries@.len() - i,
                {
                    proof {
                        vstd::std_specs::vec::axiom_vec_index_decreases(*entries, i as int);
                        assert(decreases_to!(*self => (*self)->Object_0));
                        assert(decreases_to!(entries[i as int] => entries[i as int].1));
                    }
                    out.push((entries[i].0.clone(), entries[i].1.deep_copy()));
                    i = i + 1;
                }
                let r = Json::Object(out);
                assert(r@->Object_0 =~= self@->Object_0);
                r
            },
        }
    }

    /// The member `key` of an object; `None` for any other value.
    pub fn get(&self, key: &str) -> (r: Option<&Json>)
        ensures
            opt_view(r) == self@.get(key@),
    {
        match self {
            Json::Object(entries) => {
                let ghost e = self@->Object_0;
                let mut i: usize = 0;
                assert(e.subrange(0, e.len() as int) =~= e);
                while i < entries.len()
                    invariant
                        e == self@->Object_0,
                        self@ == Json::Object(*entries)@,
                        e.len() == entries@.len(),
                        i <= entries@.len(),
                        lookup(e, key@) == lookup(e.subrange(i as int, e.len() as int), key@),
                    decreases entries@.len() - i,
                {
                    let ghost rest = e.subrange(i as int, e.len() as int);
                    assert(rest[0] == e[i as int]);
                    if same_text(entries[i].0.as_str(), key) {
                        return Some(&entries[i].1);
                    }
                    assert(rest.drop_first() =~= e.subrange(i + 1, e.len() as int));
                    i = i + 1;
                }
                assert(e.subrange(i as int, e.len() as int) =~= Seq::<(Seq<char>, JsonView)>::empty());
                None
            },
            _ => None,
        }
    }

    pub fn as_str(&self) -> (r: Option<&str>)
        ensures
            match r {
                Some(s) => self@.as_str() == Some(s@),
                None => self@.as_str() is None,
            },
    {
        match self {
            Json::Str(s) => Some(s.as_str()),
            _ => None,
        }
    }

    pub fn as_u64(&self) -> (r: Option<u64>)
        ensures
            r == self@.as_u64(),
    {
        match self {
            Json::Number(JsonNumber::Unsigned(n)) => Some(*n),
            _ => None,
        }
    }

    pub fn as_array(&self) -> (r: Option<&Vec<Json>>)
        ensures
            match r {
                Some(items) => self@.as_array() == Some(items@.map_values(|x: Json| x@)),
                None => self@.as_array() is None,
            },
    {
        match self {
            Json::Array(items) => {
                assert(self@->Array_0 =~= items@.map_values(|x: Json| x@));
                Some(items)
            },
            _ => None,
        }
    }

    pub fn is_null(&self) -> (r: bool)
        ensures
            r == self@.is_null(),
    {
        match self {
            Json::Null => true,
            _ => false,
        }
    }

    /// The value of the first member of an object (`as_object().values().next()`).
    pub fn first_member_value(&self) -> (r: Option<&Json>)
        ensures
            opt_view(r) == self@.first_member_value(),
    {
        match self {
            Json::Object(entries) => {
                if entries.len() > 0 {
                    Some(&entries[0].1)
                } else {
                    None
                }
            },
            _ => None,
        }
    }
}

/// The error `serde_json` reports for text that is not JSON.
#[verifier::external_type_specification]
#[verifier::external_body]
pub struct ExJsonError(serde_json::Error);

/// A JSON value as `serde_json` holds it: objects keep their members in a map
/// sorted by key.
#[verifier::external_type_specification]
#[verifier::external_body]
pub struct ExJsonValue(serde_json::Value);

/// A JSON number as `serde_json` holds it.
#[verifier::external_type_specification]
#[verifier::external_body]
pub struct ExJsonNumber(serde_json::Number);

/// Turns a number `serde_json` parsed into the library's number: a
/// non-negative integer, a negative integer, or the number's text.
#[verifier::external_body]
fn number_from_value(n: &serde_json::Number) -> JsonNumber {
    match (n.as_u64(), n.as_i64()) {
        (Some(u), _) => JsonNumber::Unsigned(u),
        (None, Some(i)) => JsonNumber::Negative(i),
        (None, None) => JsonNumber::Fractional(n.to_string()),
    }
}

/// Turns a value `serde_json` parsed into the library's value, variant for
/// variant; members come in the order of `serde_json`'s map.
#[verifier::external_body]
fn json_from_value(value: &serde_json::Value) -> Json {
    match value {
        serde_json::Value::Null => Json::Null,
        serde_json::Value::Bool(b) => Json::Bool(*b),
        serde_json::Value::Number(n) => Json::Number(number_from_value(n)),
        serde_json::Value::String(t) => Json::Str(t.clone()),
        serde_json::Value::Array(items) => Json::Array(items.iter().map(json_from_value).collect()),
        serde_json::Value::Object(m) => Json::Object(m.iter().map(|(k, v)| (k.clone(), json_from_value(v))).collect()),
    }
}

/// Turns the library's number into `serde_json`'s; a number text that
/// `serde_json` does not read as a number becomes `null`.
#[verifier::external_body]
fn number_to_value(n: &JsonNumber) -> serde_json::Value {
    match n {
        JsonNumber::Unsigned(u) => serde_json::Value::from(*u),
        JsonNumber::Negative(i) => serde_json::Value::from(*i),
        JsonNumber::Fractional(t) => match t.parse::<serde_json::Number>() {
            Ok(x) => serde_json::Value::Number(x),
            Err(_) => serde_json::Value::Null,
        },
    }
}

/// Turns the library's value into `serde_json`'s, variant for variant; an
/// object becomes a map, where a later member with the same key replaces an
/// earlier one.
#[verifier::external_body]
fn json_to_value(json: &Json) -> serde_json::Value {
    match json {
        Json::Null => serde_json::Value::Null,
        Json::Bool(b) => serde_json::Value::Bool(*b),
        Json::Number(n) => number_to_value(n),
        Json::Str(t) => serde_json::Value::String(t.clone()),
        Json::Array(items) => serde_json::Value::Array(items.iter().map(json_to_value).collect()),
        Json::Object(e) => serde_json::Value::Object(e.iter().map(|(k, v)| (k.clone(), json_to_value(v))).collect()),
    }
}

/// What `serde_json::from_slice` reads from the bytes, as the library's JSON
/// value; `None` where it reports an error.
pub uninterp spec fn json_parsed(bytes: Seq<u8>) -> Option<JsonView>;

/// Calls `serde_json::from_slice` to read a `serde_json::Value` and turns it
/// into the library's value. What it reads is named, not described.
#[verifier::external_body]
fn serde_json_from_slice(bytes: &[u8]) -> (r: Result<Json, serde_json::Error>)
    ensures
        r is Ok <==> json_parsed(bytes@) is Some,
        r matches Ok(v) ==> json_parsed(bytes@) == Some(v@),
{
    match serde_json::from_slice::<serde_json::Value>(bytes) {
        Ok(v) => Ok(json_from_value(&v)),
        Err(e) => Err(e),
    }
}

/// The message of a `serde_json` error (its `Display` text); nothing is
/// stated of the text.
#[verifier::external_body]
fn json_error_text(error: &serde_json::Error) -> String {
    error.to_string()
}

/// Reads a JSON value from bytes; the error is the parser's message.
pub fn parse_json(bytes: &[u8]) -> (r: Result<Json, String>)
    ensures
        match json_parsed(bytes@) {
            Some(v) => r matches Ok(x) && x@ == v,
            None => r is Err,
        },
{
    match serde_json_from_slice(bytes) {
        Ok(v) => Ok(v),
        Err(e) => Err(json_error_text(&e)),
    }
}

/// The compact text `serde_json::to_string` writes for the value as a
/// `serde_json::Value`.
pub uninterp spec fn json_text(v: JsonView) -> Seq<char>;

/// The indented text `serde_json::to_string_pretty` writes for the value as a
/// `serde_json::Value`.
pub uninterp spec fn json_pretty_text(v: JsonView) -> Seq<char>;

/// The JSON text of a string: quoted, with `"`, `\` and control characters escaped.
pub open spec fn json_string_literal(s: Seq<char>) -> Seq<char> {
    json_text(JsonView::Str(s))
}

/// Calls `serde_json::to_string` on the value as a `serde_json::Value`. Its
/// source writes into a `Vec<u8>`, which cannot fail, and a `Value` has only
/// string keys and finite numbers, so the call always succeeds; the text
/// itself is named, not described.
#[verifier::external_body]
fn serde_json_to_string(v: &Json) -> (r: Result<String, serde_json::Error>)
    ensures
        r is Ok,
        r matches Ok(t) ==> t@ == json_text(v@),
{
    serde_json::to_string(&json_to_value(v))
}

/// Calls `serde_json::to_string_pretty` on the value as a `serde_json::Value`;
/// it always succeeds, as `serde_json::to_string` does. The text is named, not
/// described.
#[verifier::external_body]
fn serde_json_to_string_pretty(v: &Json) -> (r: Result<String, serde_json::Error>)
    ensures
        r is Ok,
        r matches Ok(t) ==> t@ == json_pretty_text(v@),
{
    serde_json::to_string_pretty(&json_to_value(v))
}

/// The compact JSON text of a value.
pub fn json_to_string(v: &Json) -> (r: String)
    ensures
        r@ == json_text(v@),
{
    match serde_json_to_string(v) {
        Ok(t) => t,
        Err(_) => String::new(),
    }
}

/// The indented JSON text of a value.
pub fn json_to_pretty_string(v: &Json) -> (r: String)
    ensures
        r@ == json_pretty_text(v@),
{
    match serde_json_to_string_pretty(v) {
        Ok(t) => t,
        Err(_) => String::new(),
    }
}

/// The JSON text of a string.
pub fn json_quote(s: &str) -> (r: String)
    ensures
        r@ == json_string_literal(s@),
{
    json_to_string(&Json::Str(s.to_string()))
}

} // verus!
