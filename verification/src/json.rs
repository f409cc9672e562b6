//! A plain model of JSON values, and the trusted bridge that parses
//! response text into it.
//!
//! The remote service answers with JSON.  Parsing is delegated to
//! `serde_json`; everything that *reads* the parsed tree (field lookup,
//! shape checks, permissive decoding) is verified code over [`Json`].

use vstd::prelude::*;

verus! {

/// A JSON value as plain data.
///
/// Numbers are kept in three shapes: `Int` for those that fit a signed
/// 64-bit integer, `UInt` for larger non-negative integers, and `Frac` for
/// everything else (carried as its decimal text, which nothing here
/// interprets further).
#[derive(Debug, PartialEq, Eq)]
pub enum Json {
    Null,
    Bool(bool),
    Int(i64),
    UInt(u64),
    Frac(String),
    Text(String),
    Arr(Vec<Json>),
    Obj(Vec<(String, Json)>),
}

/// What `serde_json` parses the given text into, mapped onto [`Json`]:
/// `None` where the text is not valid JSON.
pub uninterp spec fn parsed_json(s: Seq<char>) -> Option<Json>;

/// Relies on `serde_json::from_str::<serde_json::Value>`: parses the text
/// as a JSON document, deterministically.  The result is carried over to
/// [`Json`] variant by variant by [`json_of_value`].
#[verifier::external_body]
pub fn parse_json_text(s: &str) -> (r: Option<Json>)
    ensures
        r == parsed_json(s@),
{
    match serde_json::from_str::<serde_json::Value>(s) {
        Ok(v) => Some(json_of_value(v)),
        Err(_) => None,
    }
}

#[verifier::external_type_specification]
#[verifier::external_body]
pub struct ExJsonValue(serde_json::Value);

/// Conversion arm of [`parse_json_text`]: maps `serde_json`'s value tree
/// onto [`Json`], one variant to one.  Object entries keep the order in
/// which `serde_json`'s map iterates them (sorted by key, duplicates
/// already collapsed at parse time).
#[verifier::external_body]
fn json_of_value(v: serde_json::Value) -> Json {
    match v {
        serde_json::Value::Null => Json::Null,
        serde_json::Value::Bool(b) => Json::Bool(b),
        serde_json::Value::Number(n) => match (n.as_i64(), n.as_u64()) {
            (Some(i), _) => Json::Int(i),
            (None, Some(u)) => Json::UInt(u),
            (None, None) => Json::Frac(n.to_string()),
        },
        serde_json::Value::String(s) => Json::Text(s),
        serde_json::Value::Array(a) => Json::Arr(a.into_iter().map(json_of_value).collect()),
        serde_json::Value::Object(o) => Json::Obj(
            o.into_iter().map(|(k, x)| (k, json_of_value(x))).collect(),
        ),
    }
}

/// The binding a key has in an object's field list: the last one wins, as
/// it does when `serde_json` collapses duplicate keys while parsing.
pub open spec fn lookup(fields: Seq<(String, Json)>, key: Seq<char>) -> Option<Json>
    decreases fields.len(),
{
    if fields.len() == 0 {
        None
    } else if fields.last().0@ == key {
        Some(fields.last().1)
    } else {
        lookup(fields.drop_last(), key)
    }
}

} // verus!
