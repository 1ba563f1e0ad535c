//! The top level of a JSON document, decoded by serde_json, and lookup of
//! its members by key.
use serde_json::Value;
use vstd::prelude::*;

verus! {

#[verifier::external_type_specification]
#[verifier::external_body]
pub struct ExJsonError(serde_json::Error);

/// The kind of a JSON value.
#[derive(Clone, Copy, Debug, PartialEq, Eq, Structural)]
pub enum JsonKind {
    Null,
    Bool,
    Number,
    Text,
    Array,
    Object,
}

/// A member value of the top-level object: a string keeps its text, any
/// other value only its kind.
#[derive(Clone, Debug, PartialEq, Eq)]
pub enum JsonValue {
    Null,
    Bool,
    Number,
    Text(String),
    Array,
    Object,
}

impl JsonValue {
    pub open spec fn kind_of(self) -> JsonKind {
        match self {
            JsonValue::Null => JsonKind::Null,
            JsonValue::Bool => JsonKind::Bool,
            JsonValue::Number => JsonKind::Number,
            JsonValue::Text(_) => JsonKind::Text,
            JsonValue::Array => JsonKind::Array,
            JsonValue::Object => JsonKind::Object,
        }
    }

    pub fn kind(&self) -> (r: JsonKind)
        ensures
            r == self.kind_of(),
    {
        match self {
            JsonValue::Null => JsonKind::Null,
            JsonValue::Bool => JsonKind::Bool,
            JsonValue::Number => JsonKind::Number,
            JsonValue::Text(_) => JsonKind::Text,
            JsonValue::Array => JsonKind::Array,
            JsonValue::Object => JsonKind::Object,
        }
    }
}

/// The members of the JSON object that the bytes hold, if they hold one
/// (and nothing else but whitespace).
pub uninterp spec fn json_members(b: Seq<u8>) -> Option<Seq<(String, JsonValue)>>;

pub open spec fn is_json_space(c: u8) -> bool {
    c == 32 || c == 10 || c == 9 || c == 13
}

/// Relies on `serde_json::from_slice` into a `serde_json::Map`: the result
/// depends on the bytes alone, and a document that is empty, or whose first
/// byte is neither whitespace nor `{`, is refused.
#[verifier::external_body]
pub(crate) fn decode_members(b: &[u8]) -> (r: Result<Vec<(String, JsonValue)>, serde_json::Error>)
    ensures
        r is Ok <==> json_members(b@) is Some,
        r matches Ok(m) ==> json_members(b@) == Some(m@),
        b@.len() == 0 ==> r is Err,
        b@.len() > 0 && b@[0] != 123 && !is_json_space(b@[0]) ==> r is Err,
{
    match serde_json::from_slice::<serde_json::Map<String, Value>>(b) {
        Ok(map) => Ok(map.into_iter().map(|(k, v)| (k, match v {
            Value::Null => JsonValue::Null,
            Value::Bool(_) => JsonValue::Bool,
            Value::Number(_) => JsonValue::Number,
            Value::String(s) => JsonValue::Text(s),
            Value::Array(_) => JsonValue::Array,
            Value::Object(_) => JsonValue::Object,
        })).collect()),
        Err(e) => Err(e),
    }
}

pub open spec fn find_from(m: Seq<(String, JsonValue)>, key: Seq<char>, i: int) -> Option<
    JsonValue,
>
    decreases m.len() - i,
{
    if i < 0 || i >= m.len() {
        None
    } else if m[i].0@ == key {
        Some(m[i].1)
    } else {
        find_from(m, key, i + 1)
    }
}

/// The value of the first member whose key is `key`.
pub open spec fn member(m: Seq<(String, JsonValue)>, key: Seq<char>) -> Option<JsonValue> {
    find_from(m, key, 0)
}

/// Finds the value of the first member whose key is exactly `key`.
pub fn lookup<'a>(m: &'a Vec<(String, JsonValue)>, key: &str) -> (r: Option<&'a JsonValue>)
    ensures
        r is None <==> member(m@, key@) is None,
        r matches Some(v) ==> member(m@, key@) == Some(*v),
{
    let k = key.to_owned();
    let mut i: usize = 0;
    while i < m.len()
        invariant
            i <= m@.len(),
            k@ == key@,
            member(m@, key@) == find_from(m@, key@, i as int),
        decreases m@.len() - i,
    {
        if m[i].0 == k {
            return Some(&m[i].1);
        }
        i += 1;
    }
    None
}

} // verus!
