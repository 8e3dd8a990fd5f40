//! A JSON value as plain data, reading JSON text into one, and reading its
//! members.

use vstd::prelude::*;

use crate::search::{first_item, is_first, lemma_first_item, some_item};
use crate::text::str_eq;

verus! {

/// A JSON value.
#[derive(Debug)]
pub enum JsonValue {
    Null,
    Bool(bool),
    /// A number, by its JSON text.
    Number(String),
    Text(String),
    Array(Vec<JsonValue>),
    /// The members of an object, each key once.
    Object(Vec<JsonMember>),
}

/// A member of a JSON object.
#[derive(Debug)]
pub struct JsonMember {
    pub key: String,
    pub value: JsonValue,
}

/// The members named `key`.
pub open spec fn key_is(key: Seq<char>) -> spec_fn(JsonMember) -> bool {
    |m: JsonMember| m.key@ == key
}

/// The member `key` of `v`, when `v` is an object that has one.
pub open spec fn json_get(v: JsonValue, key: Seq<char>) -> Option<JsonValue> {
    match v {
        JsonValue::Object(members) => if some_item(members@, key_is(key)) {
            Some(first_item(members@, key_is(key)).value)
        } else {
            None
        },
        _ => None,
    }
}

/// The text of a string value.
pub open spec fn json_text(v: Option<JsonValue>) -> Option<Seq<char>> {
    match v {
        Some(JsonValue::Text(s)) => Some(s@),
        _ => None,
    }
}

/// The items of an array value.
pub open spec fn json_items(v: Option<JsonValue>) -> Option<Seq<JsonValue>> {
    match v {
        Some(JsonValue::Array(a)) => Some(a@),
        _ => None,
    }
}

/// The member `key` of `v` when it is a string.
pub open spec fn field_text(v: JsonValue, key: Seq<char>) -> Option<Seq<char>> {
    json_text(json_get(v, key))
}

/// The member `key` of `v` when it is an array.
pub open spec fn field_items(v: JsonValue, key: Seq<char>) -> Option<Seq<JsonValue>> {
    json_items(json_get(v, key))
}

/// serde_json's parsed value, carried through the conversion below.
#[verifier::external_type_specification]
#[verifier::external_body]
pub struct ExSerdeJsonValue(serde_json::Value);

/// The JSON value that serde_json reads from `text`, when it reads one.
pub uninterp spec fn json_text_value(text: Seq<char>) -> Option<JsonValue>;

/// The text of the error that serde_json reports for `text`.
pub uninterp spec fn json_text_error(text: Seq<char>) -> Seq<char>;

/// Converts a parsed serde_json value into a `JsonValue`, one variant for
/// one; a number keeps its JSON text and an object its members in
/// serde_json's order.
#[verifier::external_body]
fn json_value_of(value: serde_json::Value) -> JsonValue {
    match value {
        serde_json::Value::Null => JsonValue::Null,
        serde_json::Value::Bool(b) => JsonValue::Bool(b),
        serde_json::Value::Number(n) => JsonValue::Number(n.to_string()),
        serde_json::Value::String(s) => JsonValue::Text(s),
        serde_json::Value::Array(items) => JsonValue::Array(items.into_iter().map(json_value_of).collect()),
        serde_json::Value::Object(members) => JsonValue::Object(
            members.into_iter().map(|(key, value)| JsonMember { key, value: json_value_of(value) }).collect(),
        ),
    }
}

/// Reads `contents` as JSON with serde_json's `from_str` into its `Value`,
/// trusted: what serde_json reads depends on the text alone, so the value it
/// reads, and otherwise the `Display` text of its error, is named after the
/// text. Nothing is claimed of which texts are JSON.
#[verifier::external_body]
pub(crate) fn parse_json_text(contents: &str) -> (r: Result<JsonValue, String>)
    ensures
        r is Ok <==> json_text_value(contents@) is Some,
        r matches Ok(w) ==> json_text_value(contents@) == Some(w),
        r matches Err(e) ==> e@ == json_text_error(contents@),
{
    match serde_json::from_str::<serde_json::Value>(contents) {
        Ok(value) => Ok(json_value_of(value)),
        Err(error) => Err(error.to_string()),
    }
}

impl JsonValue {
    /// The member `key`, when this is an object that has one.
    pub fn get(&self, key: &str) -> (r: Option<&JsonValue>)
        ensures
            match r {
                Some(x) => json_get(*self, key@) == Some(*x),
                None => json_get(*self, key@) is None,
            },
    {
        match self {
            JsonValue::Object(members) => {
                let mut i: usize = 0;
                while i < members.len()
                    invariant
                        i <= members@.len(),
                        *self == JsonValue::Object(*members),
                        forall|j: int| 0 <= j < i ==> !key_is(key@)(#[trigger] members@[j]),
                    decreases members.len() - i,
                {
                    if str_eq(members[i].key.as_str(), key) {
                        proof {
                            lemma_first_item(members@, key_is(key@), i as int);
                        }
                        return Some(&members[i].value);
                    }
                    i = i + 1;
                }
                None
            },
            _ => None,
        }
    }
}

/// The member `key` of `v` when it is a string.
pub fn text_field<'a>(v: &'a JsonValue, key: &str) -> (r: Option<&'a str>)
    ensures
        match r {
            Some(t) => field_text(*v, key@) == Some(t@),
            None => field_text(*v, key@) is None,
        },
{
    match v.get(key) {
        Some(JsonValue::Text(s)) => Some(s.as_str()),
        _ => None,
    }
}

/// The member `key` of `v` when it is an array.
pub fn items_field<'a>(v: &'a JsonValue, key: &str) -> (r: Option<&'a Vec<JsonValue>>)
    ensures
        match r {
            Some(a) => field_items(*v, key@) == Some(a@),
            None => field_items(*v, key@) is None,
        },
{
    match v.get(key) {
        Some(JsonValue::Array(a)) => Some(a),
        _ => None,
    }
}

} // verus!
