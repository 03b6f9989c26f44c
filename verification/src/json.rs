//! Structured-reply decoding: thin trusted views of `serde_json`.
//!
//! The remote coordination service and the local daemon both answer with
//! small JSON documents.  The endpoint only ever reads a single string or
//! boolean field out of such a document, so the two queries below are the
//! whole JSON boundary of the crate.  What a document parses to is far too
//! large to state here, but it is a function of the text alone, so each
//! query's result is given a name that the callers' contracts build on.

use vstd::prelude::*;

verus! {

/// The string value under `key` in `doc` read as a JSON document: `Some`
/// exactly when `doc` parses and holds a string there, `None` on a parse
/// failure, a missing key or a non-string value.
pub uninterp spec fn json_string_field(doc: Seq<char>, key: Seq<char>) -> Option<Seq<char>>;

/// The boolean value under `key` in `doc` read as a JSON document: `Some`
/// exactly when `doc` parses and holds a boolean there, `None` on a parse
/// failure, a missing key or a non-boolean value.
pub uninterp spec fn json_bool_field(doc: Seq<char>, key: Seq<char>) -> Option<bool>;

/// The string under `key`, with an absent or malformed field collapsed to the
/// empty string — the tolerant reading every reply decoder uses.
pub open spec fn spec_text_field(doc: Seq<char>, key: Seq<char>) -> Seq<char> {
    match json_string_field(doc, key) {
        Option::Some(v) => v,
        Option::None => Seq::<char>::empty(),
    }
}

/// Relies on `serde_json::from_str`, `Value::get` and `Value::as_str`: reads
/// the string stored under `key` when `doc` parses as a JSON object.  The
/// result depends on the two arguments alone.
#[verifier::external_body]
pub(crate) fn string_field(doc: &str, key: &str) -> (r: Option<String>)
    ensures
        r.deep_view() == json_string_field(doc@, key@),
{
    match serde_json::from_str::<serde_json::Value>(doc) {
        Ok(v) => match v.get(key) {
            Some(f) => match f.as_str() {
                Some(s) => Some(s.to_owned()),
                None => None,
            },
            None => None,
        },
        Err(_) => None,
    }
}

/// Relies on `serde_json::from_str`, `Value::get` and `Value::as_bool`: reads
/// the boolean stored under `key` when `doc` parses as a JSON object.  The
/// result depends on the two arguments alone.
#[verifier::external_body]
pub(crate) fn bool_field(doc: &str, key: &str) -> (r: Option<bool>)
    ensures
        r == json_bool_field(doc@, key@),
{
    match serde_json::from_str::<serde_json::Value>(doc) {
        Ok(v) => match v.get(key) {
            Some(f) => f.as_bool(),
            None => None,
        },
        Err(_) => None,
    }
}

} // verus!
