//! JSON documents as plain values, and reading them from text.
use vstd::prelude::*;

verus! {

/// A JSON value: numbers are kept as their text, and an object is its members in the
/// order the parser hands them out.
pub enum JsonValue {
    Null,
    Bool(bool),
    Number(String),
    Str(String),
    Array(Vec<JsonValue>),
    Object(Vec<(String, JsonValue)>),
}

#[verifier::external_type_specification]
#[verifier::external_body]
pub struct ExJsonValue(serde_json::Value);

/// The document `serde_json` reads from `text`, or `None` where the text is not JSON.
pub uninterp spec fn json_of(text: Seq<char>) -> Option<JsonValue>;

/// `serde_json::from_str::<serde_json::Value>(text)`, with the value converted member
/// for member; a parse error gives `None`. What the parser accepts and what it reads is
/// named by `json_of`, not stated here.
#[verifier::external_body]
pub fn parse_json(text: &str) -> (r: Option<JsonValue>)
    ensures
        r == json_of(text@),
{
    serde_json::from_str::<serde_json::Value>(text).ok().map(json_value_from)
}

/// Converts a parsed `serde_json::Value` into the library's `JsonValue`, variant for
/// variant (a number by its text, an object by its members in the map's order).
#[verifier::external_body]
fn json_value_from(v: serde_json::Value) -> JsonValue {
    match v {
        serde_json::Value::Null => JsonValue::Null,
        serde_json::Value::Bool(b) => JsonValue::Bool(b),
        serde_json::Value::Number(n) => JsonValue::Number(n.to_string()),
        serde_json::Value::String(s) => JsonValue::Str(s),
        serde_json::Value::Array(a) => JsonValue::Array(a.into_iter().map(json_value_from).collect()),
        serde_json::Value::Object(o) => JsonValue::Object(o.into_iter().map(|(k, x)| (k, json_value_from(x))).collect()),
    }
}

/// The value of the last member named `key`.
pub open spec fn json_get(entries: Seq<(String, JsonValue)>, key: Seq<char>) -> Option<JsonValue>
    decreases entries.len(),
{
    if entries.len() == 0 {
        None
    } else if entries.last().0@ == key {
        Some(entries.last().1)
    } else {
        json_get(entries.drop_last(), key)
    }
}

/// The text of a string value.
pub open spec fn json_string(v: Option<JsonValue>) -> Option<Seq<char>> {
    match v {
        Some(JsonValue::Str(s)) => Some(s@),
        _ => None,
    }
}

/// The value of the last member named `key`, as `serde_json::Map::get` finds it.
pub fn json_lookup<'a>(entries: &'a Vec<(String, JsonValue)>, key: &str) -> (r: Option<&'a JsonValue>)
    ensures
        match r {
            Some(x) => json_get(entries@, key@) == Some(*x),
            None => json_get(entries@, key@) is None,
        },
{
    let mut i: usize = entries.len();
    assert(entries@.take(i as int) =~= entries@);
    while i > 0
        invariant
            i <= entries@.len(),
            json_get(entries@, key@) == json_get(entries@.take(i as int), key@),
        decreases i,
    {
        assert(entries@.take(i as int).last() == entries@[i - 1]);
        assert(entries@.take(i as int).drop_last() =~= entries@.take(i - 1));
        if crate::text::str_eq(entries[i - 1].0.as_str(), key) {
            return Some(&entries[i - 1].1);
        }
        i = i - 1;
    }
    None
}

/// The text of a string value, as `serde_json::Value::as_str` gives it.
pub fn json_as_str(v: Option<&JsonValue>) -> (r: Option<&str>)
    ensures
        match r {
            Some(s) => json_string(match v { Some(x) => Some(*x), None => None }) == Some(s@),
            None => json_string(match v { Some(x) => Some(*x), None => None }) is None,
        },
{
    match v {
        Some(JsonValue::Str(s)) => Some(s.as_str()),
        _ => None,
    }
}

} // verus!
