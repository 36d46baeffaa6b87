//! JSON documents as plain values, read by `serde_json`, and the lookups the
//! probe's report needs.

use vstd::prelude::*;
use crate::text::str_eq;

verus! {

/// A JSON value: numbers keep their text, objects their fields in the order
/// the reader gives them.
#[derive(Debug, PartialEq, Eq)]
pub enum Json {
    Null,
    Bool(bool),
    Number(String),
    Text(String),
    Array(Vec<Json>),
    Object(Vec<(String, Json)>),
}

/// `serde_json::Value`, carried through unopened.
#[verifier::external_type_specification]
#[verifier::external_body]
pub struct ExJsonValue(serde_json::Value);

/// The document `serde_json::from_str::<serde_json::Value>` reads from a
/// text, taken variant for variant, if it accepts the text.
pub uninterp spec fn json_document(text: Seq<char>) -> Option<Json>;

/// `serde_json::Value` taken variant for variant: a number by its text, an
/// object by its entries in the map's order. Nothing is stated of it here;
/// `read_json`, its one caller, names what the two give together.
#[verifier::external_body]
fn json_of_value(value: serde_json::Value) -> Json {
    match value {
        serde_json::Value::Null => Json::Null,
        serde_json::Value::Bool(b) => Json::Bool(b),
        serde_json::Value::Number(n) => Json::Number(n.to_string()),
        serde_json::Value::String(s) => Json::Text(s),
        serde_json::Value::Array(items) => Json::Array(items.into_iter().map(json_of_value).collect()),
        serde_json::Value::Object(fields) => Json::Object(
            fields.into_iter().map(|(k, v)| (k, json_of_value(v))).collect(),
        ),
    }
}

/// `serde_json::from_str::<serde_json::Value>(text)`: the document it reads,
/// or its error's message where it refuses the text.
#[verifier::external_body]
pub(crate) fn read_json(text: &str) -> (r: Result<Json, String>)
    ensures
        match json_document(text@) {
            Some(j) => r == Ok::<Json, String>(j),
            None => r is Err,
        },
{
    match serde_json::from_str::<serde_json::Value>(text) {
        Ok(value) => Ok(json_of_value(value)),
        Err(error) => Err(error.to_string()),
    }
}

/// The value of the first field named `key` from field `i` on.
pub open spec fn field_from(fields: Seq<(String, Json)>, key: Seq<char>, i: int) -> Option<Json>
    decreases fields.len() - i,
{
    if i < 0 || i >= fields.len() {
        None
    } else if fields[i].0@ == key {
        Some(fields[i].1)
    } else {
        field_from(fields, key, i + 1)
    }
}

/// The field `key` of an object; nothing for any other value.
pub open spec fn json_get(j: Json, key: Seq<char>) -> Option<Json> {
    match j {
        Json::Object(fields) => field_from(fields@, key, 0),
        _ => None,
    }
}

/// The text of a string value; nothing for any other value.
pub open spec fn json_text(j: Option<Json>) -> Option<Seq<char>> {
    match j {
        Some(Json::Text(s)) => Some(s@),
        _ => None,
    }
}

impl Json {
    /// The field `key` of an object.
    pub fn get(&self, key: &str) -> (r: Option<&Json>)
        ensures
            match r {
                Some(v) => json_get(*self, key@) == Some(*v),
                None => json_get(*self, key@) is None,
            },
    {
        match self {
            Json::Object(fields) => {
                let mut i: usize = 0;
                while i < fields.len()
                    invariant
                        i <= fields.len(),
                        json_get(*self, key@) == field_from(fields@, key@, i as int),
                    decreases fields.len() - i,
                {
                    let field = &fields[i];
                    if str_eq(field.0.as_str(), key) {
                        assert(field_from(fields@, key@, i as int) == Some(fields@[i as int].1));
                        return Some(&field.1);
                    }
                    i = i + 1;
                }
                None
            },
            _ => None,
        }
    }

    /// The text of a string value.
    pub fn as_text(&self) -> (r: Option<&str>)
        ensures
            match r {
                Some(t) => json_text(Some(*self)) == Some(t@),
                None => json_text(Some(*self)) is None,
            },
    {
        match self {
            Json::Text(s) => Some(s.as_str()),
            _ => None,
        }
    }
}

} // verus!
