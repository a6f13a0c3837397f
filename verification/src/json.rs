//! Reading JSON documents.

use vstd::prelude::*;

verus! {

/// Whether a document is valid JSON and holds anything at a pointer.
pub uninterp spec fn json_present(doc: Seq<u8>, pointer: Seq<char>) -> bool;

/// `serde_json::from_slice` and `Value::pointer`: whether the document is valid
/// JSON and holds anything at the pointer.
#[verifier::external_body]
pub(crate) fn json_holds(doc: &Vec<u8>, pointer: &str) -> (r: bool)
    ensures
        r == json_present(doc@, pointer@),
{
    match serde_json::from_slice::<serde_json::Value>(doc) {
        Ok(value) => value.pointer(pointer).is_some(),
        Err(_) => false,
    }
}

/// The truth value at a pointer of a document, where there is one.
pub uninterp spec fn json_bool_at(doc: Seq<u8>, pointer: Seq<char>) -> Option<bool>;

/// `serde_json::from_slice`, `Value::pointer` and `Value::as_bool`: the truth
/// value at the pointer, where the document is valid JSON and holds one there.
#[verifier::external_body]
pub(crate) fn json_flag(doc: &Vec<u8>, pointer: &str) -> (r: Option<bool>)
    ensures
        r == json_bool_at(doc@, pointer@),
{
    let value: serde_json::Value = serde_json::from_slice(doc).ok()?;
    value.pointer(pointer)?.as_bool()
}

/// The text at a pointer of a document, where there is one.
pub uninterp spec fn json_text_at(doc: Seq<u8>, pointer: Seq<char>) -> Option<Seq<char>>;

/// `serde_json::from_slice`, `Value::pointer` and `Value::as_str`: the text at
/// the pointer, where the document is valid JSON and holds one there.
#[verifier::external_body]
pub(crate) fn json_text(doc: &Vec<u8>, pointer: &str) -> (r: Option<String>)
    ensures
        match r {
            Some(text) => json_text_at(doc@, pointer@) == Some(text@),
            None => json_text_at(doc@, pointer@) is None,
        },
{
    let value: serde_json::Value = serde_json::from_slice(doc).ok()?;
    value.pointer(pointer)?.as_str().map(|text| text.to_owned())
}

} // verus!
