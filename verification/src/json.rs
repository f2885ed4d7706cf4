//! Reading single values out of a JSON document. The document is parsed by
//! `serde_json`; a value in it is addressed by a JSON Pointer.

use vstd::prelude::*;

verus! {

/// Whether a text is a JSON document.
pub uninterp spec fn json_valid(document: Seq<char>) -> bool;

/// The string that a JSON document holds at a pointer, if it holds a string
/// there.
pub uninterp spec fn json_text_at(document: Seq<char>, pointer: Seq<char>) -> Option<Seq<char>>;

/// The unsigned integer that a JSON document holds at a pointer, if it holds
/// one there.
pub uninterp spec fn json_u64_at(document: Seq<char>, pointer: Seq<char>) -> Option<u64>;

/// The length of the array that a JSON document holds at a pointer, if it
/// holds an array there.
pub uninterp spec fn json_array_len_at(document: Seq<char>, pointer: Seq<char>) -> Option<nat>;

/// `serde_json::from_str` to a `Value`, then `Value::pointer` and
/// `Value::as_str`: `None` where `document` is no JSON document, else the
/// string at `pointer`, if there is one. Here the results are only given their
/// names. Not proved here.
#[verifier::external_body]
pub(crate) fn json_text(document: &str, pointer: &str) -> (found: Option<Option<String>>)
    ensures
        found is Some == json_valid(document@),
        found is Some ==> (found->0 is Some) == (json_text_at(document@, pointer@) is Some),
        found is Some && found->0 is Some ==> found->0->0@ == json_text_at(
            document@,
            pointer@,
        )->0,
{
    match serde_json::from_str::<serde_json::Value>(document) {
        Ok(value) => Some(
            value.pointer(pointer).and_then(|at| at.as_str()).map(|text| text.to_owned()),
        ),
        Err(_) => None,
    }
}

/// `serde_json::from_str` to a `Value`, then `Value::pointer` and
/// `Value::as_u64`: `None` where `document` is no JSON document, else the
/// unsigned integer at `pointer`, if there is one. Here the results are only
/// given their names. Not proved here.
#[verifier::external_body]
pub(crate) fn json_u64(document: &str, pointer: &str) -> (found: Option<Option<u64>>)
    ensures
        found is Some == json_valid(document@),
        found is Some ==> found->0 == json_u64_at(document@, pointer@),
{
    match serde_json::from_str::<serde_json::Value>(document) {
        Ok(value) => Some(value.pointer(pointer).and_then(|at| at.as_u64())),
        Err(_) => None,
    }
}

/// `serde_json::from_str` to a `Value`, then `Value::pointer` and
/// `Value::as_array`: `None` where `document` is no JSON document, else the
/// length of the array at `pointer`, if there is one. Here the results are
/// only given their names. Not proved here.
#[verifier::external_body]
pub(crate) fn json_array_len(document: &str, pointer: &str) -> (found: Option<Option<usize>>)
    ensures
        found is Some == json_valid(document@),
        found is Some ==> (found->0 is Some) == (json_array_len_at(document@, pointer@) is Some),
        found is Some && found->0 is Some ==> found->0->0 as nat == json_array_len_at(
            document@,
            pointer@,
        )->0,
{
    match serde_json::from_str::<serde_json::Value>(document) {
        Ok(value) => Some(
            value.pointer(pointer).and_then(|at| at.as_array()).map(|items| items.len()),
        ),
        Err(_) => None,
    }
}

} // verus!
