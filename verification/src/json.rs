//! JSON documents as plain data, and the trusted bridge to the
//! `serde_json` parser.
//!
//! The crate's logic never inspects `serde_json::Value` directly: a
//! parsed document is carried over into [`Json`], a plain enum, and every
//! rule about configuration shapes is verified against that enum.

use vstd::prelude::*;

verus! {

/// A JSON document as plain data. Numbers carry no payload because no
/// rule in this crate reads one; object fields keep the order the parser
/// hands them out in (sorted by key, duplicates collapsed).
pub enum Json {
    Null,
    Bool(bool),
    Number,
    Str(String),
    Array(Vec<Json>),
    Object(Vec<(String, Json)>),
}

#[verifier::external_type_specification]
#[verifier::external_body]
pub struct ExValue(serde_json::Value);

/// What `serde_json::from_str::<serde_json::Value>` returns on a string:
/// a function of the string alone.
pub uninterp spec fn value_of(s: Seq<char>) -> Option<serde_json::Value>;

/// The [`Json`] counterpart of a `serde_json::Value`: a function of the
/// value alone.
pub uninterp spec fn json_view(v: serde_json::Value) -> Json;

/// Relies on `serde_json::from_str::<serde_json::Value>`: parses the
/// string as one JSON document, deterministically.
#[verifier::external_body]
fn from_str_value(s: &str) -> (r: Option<serde_json::Value>)
    ensures
        r == value_of(s@),
{
    serde_json::from_str(s).ok()
}

/// Relies on the shape of `serde_json::Value`: each variant is carried
/// onto the matching [`Json`] variant, fields moved one for one; only the
/// numeric payload is dropped, which nothing in this crate reads.
#[verifier::external_body]
fn value_to_json(v: serde_json::Value) -> (r: Json)
    ensures
        r == json_view(v),
{
    match v {
        serde_json::Value::Null => Json::Null,
        serde_json::Value::Bool(b) => Json::Bool(b),
        serde_json::Value::Number(_) => Json::Number,
        serde_json::Value::String(s) => Json::Str(s),
        serde_json::Value::Array(a) => Json::Array(a.into_iter().map(value_to_json).collect()),
        serde_json::Value::Object(o) => Json::Object(
            o.into_iter().map(|p| (p.0, value_to_json(p.1))).collect(),
        ),
    }
}

/// The [`Json`] document denoted by a string, if it parses.
pub open spec fn json_of(s: Seq<char>) -> Option<Json> {
    match value_of(s) {
        Some(v) => Some(json_view(v)),
        None => None,
    }
}

/// Parse a string as one JSON document.
pub fn parse_json(s: &str) -> (r: Option<Json>)
    ensures
        r == json_of(s@),
{
    match from_str_value(s) {
        Some(v) => Some(value_to_json(v)),
        None => None,
    }
}

/// The value bound to a key among an object's fields: the first binding,
/// which is the only one since the parser collapses duplicates.
pub open spec fn obj_get(fields: Seq<(String, Json)>, key: Seq<char>) -> Option<Json>
    decreases fields.len(),
{
    if fields.len() == 0 {
        None
    } else if fields[0].0@ == key {
        Some(fields[0].1)
    } else {
        obj_get(fields.drop_first(), key)
    }
}

/// Look a key up among an object's fields.
pub fn json_obj_get<'a>(fields: &'a Vec<(String, Json)>, key: &str) -> (r: Option<&'a Json>)
    ensures
        match r {
            Some(v) => obj_get(fields@, key@) == Some(*v),
            None => obj_get(fields@, key@) is None,
        },
{
    let n = fields.len();
    let mut i: usize = 0;
    proof {
        assert(fields@.skip(0) =~= fields@);
    }
    while i < n
        invariant
            i <= n,
            n == fields@.len(),
            obj_get(fields@, key@) == obj_get(fields@.skip(i as int), key@),
        decreases n - i,
    {
        let ghost tail = fields@.skip(i as int);
        proof {
            assert(tail[0] == fields@[i as int]);
            assert(tail.drop_first() =~= fields@.skip(i as int + 1));
        }
        let p = &fields[i];
        if crate::strutil::str_eq(key, p.0.as_str()) {
            return Some(&p.1);
        }
        i = i + 1;
    }
    None
}

} // verus!
