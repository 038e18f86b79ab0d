//! JSON documents as plain values, decoded from response bodies, and the
//! member lookups that the listings need.
use vstd::prelude::*;
use crate::resolve::{first_index_where, lemma_first_index_where, opt_text};
use crate::text::same_text;

verus! {

/// A JSON value.
#[derive(Debug)]
pub enum JsonDoc {
    Null,
    Bool(bool),
    /// A number, with its value where it is an integer that fits in a `u64`.
    Number(Option<u64>),
    Text(String),
    Array(Vec<JsonDoc>),
    /// The members of an object: each key once, and the value under the key
    /// at the same position.
    Object(Vec<String>, Vec<JsonDoc>),
}

/// The document that a body of bytes holds, if it holds one.
pub uninterp spec fn json_doc_of(body: Seq<u8>) -> Option<JsonDoc>;

#[verifier::external_type_specification]
#[verifier::external_body]
pub struct ExJsonValue(serde_json::Value);

/// Relies on `serde_json::from_slice`: decodes the bytes as one JSON
/// document, or gives nothing where they hold none; the result depends on
/// the bytes alone.
#[verifier::external_body]
fn decode_json(body: &[u8]) -> (r: Option<JsonDoc>)
    ensures
        r == json_doc_of(body@),
{
    serde_json::from_slice::<serde_json::Value>(body).ok().map(|v| doc_from_value(&v))
}

/// Relies on the variants of `serde_json::Value` and on `Number::as_u64`:
/// carries a decoded value over variant by variant.
#[verifier::external_body]
fn doc_from_value(v: &serde_json::Value) -> JsonDoc {
    match v {
        serde_json::Value::Null => JsonDoc::Null,
        serde_json::Value::Bool(b) => JsonDoc::Bool(*b),
        serde_json::Value::Number(n) => JsonDoc::Number(n.as_u64()),
        serde_json::Value::String(s) => JsonDoc::Text(s.clone()),
        serde_json::Value::Array(a) => JsonDoc::Array(a.iter().map(doc_from_value).collect()),
        serde_json::Value::Object(m) => JsonDoc::Object(
            m.keys().cloned().collect(),
            m.values().map(doc_from_value).collect(),
        ),
    }
}

/// The document that a response body holds, if it holds one.
pub fn parse_document(body: &[u8]) -> (r: Option<JsonDoc>)
    ensures
        r == json_doc_of(body@),
{
    decode_json(body)
}

/// The member of an object under `key`; nothing where `d` is no object or
/// has no such member.
pub open spec fn member(d: JsonDoc, key: Seq<char>) -> Option<JsonDoc> {
    match d {
        JsonDoc::Object(keys, values) => {
            let k = first_index_where(keys@, |t: String| t@ == key);
            if k < keys@.len() && k < values@.len() {
                Some(values@[k as int])
            } else {
                None
            }
        },
        _ => None,
    }
}

/// The text of a value, where it is a string.
pub open spec fn text_in(d: Option<JsonDoc>) -> Option<Seq<char>> {
    match d {
        Some(JsonDoc::Text(t)) => Some(t@),
        _ => None,
    }
}

/// The value of a number that is an integer fitting in a `u64`.
pub open spec fn u64_in(d: Option<JsonDoc>) -> Option<u64> {
    match d {
        Some(JsonDoc::Number(n)) => n,
        _ => None,
    }
}

/// The elements of a value, where it is an array; none otherwise.
pub open spec fn items_in(d: Option<JsonDoc>) -> Seq<JsonDoc> {
    match d {
        Some(JsonDoc::Array(items)) => items@,
        _ => seq![],
    }
}

/// The position of `key` among the keys of an object, or their number.
fn member_position(keys: &Vec<String>, key: &str) -> (r: usize)
    ensures
        r == first_index_where(keys@, |t: String| t@ == key@),
{
    let ghost p = |t: String| t@ == key@;
    let mut i: usize = 0;
    while i < keys.len()
        invariant
            i <= keys@.len(),
            p == (|t: String| t@ == key@),
            forall|j: int| 0 <= j < i ==> !p(keys@[j]),
        decreases keys.len() - i,
    {
        if same_text(keys[i].as_str(), key) {
            proof {
                lemma_first_index_where(keys@, p, i as int);
            }
            return i;
        }
        i += 1;
    }
    proof {
        lemma_first_index_where(keys@, p, i as int);
    }
    i
}

/// The text member of `d` under `key`.
pub fn member_text(d: &JsonDoc, key: &str) -> (r: Option<String>)
    ensures
        opt_text(r) == text_in(member(*d, key@)),
{
    match d {
        JsonDoc::Object(keys, values) => {
            let k = member_position(keys, key);
            if k < keys.len() && k < values.len() {
                match &values[k] {
                    JsonDoc::Text(t) => Some(t.clone()),
                    _ => None,
                }
            } else {
                None
            }
        },
        _ => None,
    }
}

/// The integer member of `d` under `key`, where it fits in a `u64`.
pub fn member_u64(d: &JsonDoc, key: &str) -> (r: Option<u64>)
    ensures
        r == u64_in(member(*d, key@)),
{
    match d {
        JsonDoc::Object(keys, values) => {
            let k = member_position(keys, key);
            if k < keys.len() && k < values.len() {
                match &values[k] {
                    JsonDoc::Number(n) => *n,
                    _ => None,
                }
            } else {
                None
            }
        },
        _ => None,
    }
}

/// The elements of the array member of `d` under `key`; none where there is
/// no such member or it is no array.
pub fn member_items<'a>(d: &'a JsonDoc, key: &str) -> (r: Option<&'a Vec<JsonDoc>>)
    ensures
        match r {
            Some(items) => items@ == items_in(member(*d, key@)),
            None => items_in(member(*d, key@)) == Seq::<JsonDoc>::empty(),
        },
{
    match d {
        JsonDoc::Object(keys, values) => {
            let k = member_position(keys, key);
            if k < keys.len() && k < values.len() {
                match &values[k] {
                    JsonDoc::Array(items) => Some(items),
                    _ => None,
                }
            } else {
                None
            }
        },
        _ => None,
    }
}

} // verus!
