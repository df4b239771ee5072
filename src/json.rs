//! Access to JSON documents through serde_json.
//!
//! A document is held as its bytes. What serde_json makes of a document is
//! named here by spec functions of the bytes alone; the rest of the library
//! states its contracts over those names.

use vstd::prelude::*;
use crate::frame::first_non_ws;

verus! {

/// Whether the bytes are exactly one JSON value (surrounding whitespace allowed).
pub uninterp spec fn json_well_formed(doc: Seq<u8>) -> bool;

/// What serde_json's stream deserializer makes of the start of `buf`:
/// `Some(n)` with `n > 0` when a whole first value ends after byte `n`
/// (leading whitespace included); `Some(0)` when the bytes run out before a
/// value ends, or hold only whitespace; `None` when they are not JSON.
pub uninterp spec fn json_lead(buf: Seq<u8>) -> Option<int>;

/// The member `key` of a document holding one JSON object, re-serialised.
pub uninterp spec fn json_member(doc: Seq<u8>, key: Seq<char>) -> Option<Seq<u8>>;

/// The member `key` of a document holding one JSON object, re-serialised as text.
pub uninterp spec fn json_member_text(doc: Seq<u8>, key: Seq<char>) -> Option<Seq<char>>;

/// The text of a document holding one JSON string.
pub uninterp spec fn json_string(doc: Seq<u8>) -> Option<Seq<char>>;

/// Whether the document holds one JSON `null`.
pub uninterp spec fn json_is_null(doc: Seq<u8>) -> bool;

/// The value of a document holding one JSON number that fits in a `u64`.
pub uninterp spec fn json_u64(doc: Seq<u8>) -> Option<u64>;

/// The value of a document holding one JSON boolean.
pub uninterp spec fn json_bool(doc: Seq<u8>) -> Option<bool>;

/// The elements, each re-serialised, of a document holding one JSON array.
pub uninterp spec fn json_items(doc: Seq<u8>) -> Option<Seq<Seq<u8>>>;

/// The JSON string literal (quotes and escapes) that encodes a text.
pub uninterp spec fn json_quoted(text: Seq<char>) -> Seq<char>;

/// The text that lossy UTF-8 decoding makes of some bytes.
pub uninterp spec fn utf8_lossy(bytes: Seq<u8>) -> Seq<char>;

/// The bytes held by an optional byte vector.
pub open spec fn opt_bytes(v: Option<Vec<u8>>) -> Option<Seq<u8>> {
    match v {
        Some(b) => Some(b@),
        None => None,
    }
}

/// The text held by an optional string.
pub open spec fn opt_text(v: Option<String>) -> Option<Seq<char>> {
    match v {
        Some(s) => Some(s@),
        None => None,
    }
}

/// The byte sequences held by a vector of byte vectors.
pub open spec fn seq_of_bytes(v: Seq<Vec<u8>>) -> Seq<Seq<u8>> {
    v.map_values(|b: Vec<u8>| b@)
}

/// Relies on serde_json::from_slice: `Ok` exactly when the bytes parse as one
/// JSON value; the error carries serde_json's description.
#[verifier::external_body]
pub(crate) fn check_json(doc: &[u8]) -> (r: Result<(), String>)
    ensures
        r.is_ok() == json_well_formed(doc@),
{
    match serde_json::from_slice::<serde_json::Value>(doc) {
        Ok(_) => Ok(()),
        Err(e) => Err(e.to_string()),
    }
}

/// What reading a first value from a buffer gave.
#[derive(Debug)]
pub enum LeadParse {
    /// A whole value, ending after this many bytes.
    Complete(usize),
    /// The bytes end before a value does, or hold only whitespace.
    Incomplete,
    /// The bytes are not JSON; serde_json's description.
    Malformed(String),
}

/// Relies on serde_json::Deserializer::from_slice with `into_iter`,
/// StreamDeserializer::next and byte_offset, and Error::is_eof: a first
/// value read from the buffer ends within it (the offset is the slice
/// reader's index) and after its first non-whitespace byte, where the value
/// starts once whitespace is skipped.
#[verifier::external_body]
pub(crate) fn lead_value(buf: &[u8]) -> (r: LeadParse)
    ensures
        match r {
            LeadParse::Complete(n) => json_lead(buf@) == Some(n as int) && first_non_ws(buf@, 0) < n <= buf@.len(),
            LeadParse::Incomplete => json_lead(buf@) == Some(0int),
            LeadParse::Malformed(_) => json_lead(buf@).is_none(),
        },
{
    let mut stream = serde_json::Deserializer::from_slice(buf).into_iter::<serde_json::Value>();
    match stream.next() {
        Some(Ok(_)) => LeadParse::Complete(stream.byte_offset()),
        Some(Err(e)) if e.is_eof() => LeadParse::Incomplete,
        Some(Err(e)) => LeadParse::Malformed(e.to_string()),
        None => LeadParse::Incomplete,
    }
}

/// Relies on serde_json::from_slice, serde_json::Value::get and
/// serde_json::to_vec: the member `key` of an object document.
#[verifier::external_body]
pub(crate) fn member(doc: &[u8], key: &str) -> (r: Option<Vec<u8>>)
    ensures
        opt_bytes(r) == json_member(doc@, key@),
{
    let value: serde_json::Value = serde_json::from_slice(doc).ok()?;
    serde_json::to_vec(value.get(key)?).ok()
}

/// Relies on serde_json::from_slice, serde_json::Value::get and
/// serde_json::to_string: the member `key` of an object document, as text.
#[verifier::external_body]
pub(crate) fn member_text(doc: &[u8], key: &str) -> (r: Option<String>)
    ensures
        opt_text(r) == json_member_text(doc@, key@),
{
    let value: serde_json::Value = serde_json::from_slice(doc).ok()?;
    serde_json::to_string(value.get(key)?).ok()
}

/// Relies on serde_json::from_slice and serde_json::Value::as_str.
#[verifier::external_body]
pub(crate) fn string_value(doc: &[u8]) -> (r: Option<String>)
    ensures
        opt_text(r) == json_string(doc@),
{
    let value: serde_json::Value = serde_json::from_slice(doc).ok()?;
    value.as_str().map(|s| s.to_string())
}

/// Relies on serde_json::from_slice and serde_json::Value::is_null.
#[verifier::external_body]
pub(crate) fn null_value(doc: &[u8]) -> (r: bool)
    ensures
        r == json_is_null(doc@),
{
    match serde_json::from_slice::<serde_json::Value>(doc) {
        Ok(value) => value.is_null(),
        Err(_) => false,
    }
}

/// Relies on serde_json::from_slice and serde_json::Value::as_u64.
#[verifier::external_body]
pub(crate) fn u64_value(doc: &[u8]) -> (r: Option<u64>)
    ensures
        r == json_u64(doc@),
{
    let value: serde_json::Value = serde_json::from_slice(doc).ok()?;
    value.as_u64()
}

/// Relies on serde_json::from_slice and serde_json::Value::as_bool.
#[verifier::external_body]
pub(crate) fn bool_value(doc: &[u8]) -> (r: Option<bool>)
    ensures
        r == json_bool(doc@),
{
    let value: serde_json::Value = serde_json::from_slice(doc).ok()?;
    value.as_bool()
}

/// Relies on serde_json::from_slice, serde_json::Value::as_array and
/// serde_json::to_vec: the elements of an array document, in order.
#[verifier::external_body]
pub(crate) fn array_items(doc: &[u8]) -> (r: Option<Vec<Vec<u8>>>)
    ensures
        match r {
            Some(items) => json_items(doc@) == Some(seq_of_bytes(items@)),
            None => json_items(doc@).is_none(),
        },
{
    let value: serde_json::Value = serde_json::from_slice(doc).ok()?;
    let mut items = Vec::new();
    for item in value.as_array()? {
        items.push(serde_json::to_vec(item).ok()?);
    }
    Some(items)
}

/// Relies on serde_json::to_string on a `str`: the quoted, escaped literal.
#[verifier::external_body]
pub(crate) fn quote(text: &str) -> (r: String)
    ensures
        r@ == json_quoted(text@),
{
    serde_json::to_string(text).unwrap_or_default()
}

/// Relies on String::from_utf8_lossy.
#[verifier::external_body]
pub(crate) fn lossy_text(bytes: &[u8]) -> (r: String)
    ensures
        r@ == utf8_lossy(bytes@),
{
    String::from_utf8_lossy(bytes).into_owned()
}

} // verus!
