//! Reading typed fields out of an object document.
//!
//! Each spec function says what a field yields: `Some` with the value when
//! the field has the expected shape, `None` when it does not. Optional
//! fields yield `Some(None)` when absent or `null`.

use vstd::prelude::*;
use vstd::string::StringExecFns;
use crate::json::{
    bool_value, json_bool, json_is_null, json_member, json_string, json_u64, member, null_value,
    opt_bytes, opt_text, string_value, u64_value,
};

verus! {

/// A required string field.
pub open spec fn str_field(doc: Seq<u8>, key: Seq<char>) -> Option<Seq<char>> {
    match json_member(doc, key) {
        Some(v) => json_string(v),
        None => None,
    }
}

/// An optional string field.
pub open spec fn opt_str_field(doc: Seq<u8>, key: Seq<char>) -> Option<Option<Seq<char>>> {
    match json_member(doc, key) {
        None => Some(None),
        Some(v) => if json_is_null(v) {
            Some(None)
        } else {
            match json_string(v) {
                Some(s) => Some(Some(s)),
                None => None,
            }
        },
    }
}

/// A required unsigned 64-bit field.
pub open spec fn u64_field(doc: Seq<u8>, key: Seq<char>) -> Option<u64> {
    match json_member(doc, key) {
        Some(v) => json_u64(v),
        None => None,
    }
}

/// A required unsigned 32-bit field.
pub open spec fn u32_field(doc: Seq<u8>, key: Seq<char>) -> Option<u32> {
    match u64_field(doc, key) {
        Some(n) => if n <= u32::MAX { Some(n as u32) } else { None },
        None => None,
    }
}

/// An optional unsigned 32-bit field.
pub open spec fn opt_u32_field(doc: Seq<u8>, key: Seq<char>) -> Option<Option<u32>> {
    match json_member(doc, key) {
        None => Some(None),
        Some(v) => if json_is_null(v) {
            Some(None)
        } else {
            match json_u64(v) {
                Some(n) => if n <= u32::MAX { Some(Some(n as u32)) } else { None },
                None => None,
            }
        },
    }
}

/// A required boolean field.
pub open spec fn bool_field(doc: Seq<u8>, key: Seq<char>) -> Option<bool> {
    match json_member(doc, key) {
        Some(v) => json_bool(v),
        None => None,
    }
}

/// An optional boolean field.
pub open spec fn opt_bool_field(doc: Seq<u8>, key: Seq<char>) -> Option<Option<bool>> {
    match json_member(doc, key) {
        None => Some(None),
        Some(v) => if json_is_null(v) {
            Some(None)
        } else {
            match json_bool(v) {
                Some(b) => Some(Some(b)),
                None => None,
            }
        },
    }
}

/// An optional field of any JSON value, as its text: absent or `null` is `None`.
pub open spec fn opt_raw_field(doc: Seq<u8>, key: Seq<char>) -> Option<Seq<u8>> {
    match json_member(doc, key) {
        None => None,
        Some(v) => if json_is_null(v) { None } else { Some(v) },
    }
}

/// The optional text held by an optional string.
pub open spec fn opt_opt_text(v: Option<Option<String>>) -> Option<Option<Seq<char>>> {
    match v {
        Some(Some(s)) => Some(Some(s@)),
        Some(None) => Some(None),
        None => None,
    }
}

/// Whether `a` holds the text `b`.
pub(crate) fn same_text(a: &String, b: &str) -> (r: bool)
    ensures
        r == (a@ == b@),
{
    let other = String::from_str(b);
    *a == other
}

/// Reads a required string field.
pub(crate) fn get_str(doc: &[u8], key: &str) -> (r: Option<String>)
    ensures
        opt_text(r) == str_field(doc@, key@),
{
    match member(doc, key) {
        Some(v) => string_value(v.as_slice()),
        None => None,
    }
}

/// Reads an optional string field.
pub(crate) fn get_opt_str(doc: &[u8], key: &str) -> (r: Option<Option<String>>)
    ensures
        opt_opt_text(r) == opt_str_field(doc@, key@),
{
    match member(doc, key) {
        None => Some(None),
        Some(v) => {
            if null_value(v.as_slice()) {
                Some(None)
            } else {
                match string_value(v.as_slice()) {
                    Some(s) => Some(Some(s)),
                    None => None,
                }
            }
        },
    }
}

/// Reads a required unsigned 64-bit field.
pub(crate) fn get_u64(doc: &[u8], key: &str) -> (r: Option<u64>)
    ensures
        r == u64_field(doc@, key@),
{
    match member(doc, key) {
        Some(v) => u64_value(v.as_slice()),
        None => None,
    }
}

/// Reads a required unsigned 32-bit field.
pub(crate) fn get_u32(doc: &[u8], key: &str) -> (r: Option<u32>)
    ensures
        r == u32_field(doc@, key@),
{
    match get_u64(doc, key) {
        Some(n) => if n <= 0xffff_ffffu64 { Some(n as u32) } else { None },
        None => None,
    }
}

/// Reads an optional unsigned 32-bit field.
pub(crate) fn get_opt_u32(doc: &[u8], key: &str) -> (r: Option<Option<u32>>)
    ensures
        r == opt_u32_field(doc@, key@),
{
    match member(doc, key) {
        None => Some(None),
        Some(v) => {
            if null_value(v.as_slice()) {
                Some(None)
            } else {
                match u64_value(v.as_slice()) {
                    Some(n) => if n <= 0xffff_ffffu64 { Some(Some(n as u32)) } else { None },
                    None => None,
                }
            }
        },
    }
}

/// Reads a required boolean field.
pub(crate) fn get_bool(doc: &[u8], key: &str) -> (r: Option<bool>)
    ensures
        r == bool_field(doc@, key@),
{
    match member(doc, key) {
        Some(v) => bool_value(v.as_slice()),
        None => None,
    }
}

/// Reads an optional boolean field.
pub(crate) fn get_opt_bool(doc: &[u8], key: &str) -> (r: Option<Option<bool>>)
    ensures
        r == opt_bool_field(doc@, key@),
{
    match member(doc, key) {
        None => Some(None),
        Some(v) => {
            if null_value(v.as_slice()) {
                Some(None)
            } else {
                match bool_value(v.as_slice()) {
                    Some(b) => Some(Some(b)),
                    None => None,
                }
            }
        },
    }
}

/// Reads an optional field of any JSON value, as its text.
pub(crate) fn get_opt_raw(doc: &[u8], key: &str) -> (r: Option<Vec<u8>>)
    ensures
        opt_bytes(r) == opt_raw_field(doc@, key@),
{
    match member(doc, key) {
        None => None,
        Some(v) => if null_value(v.as_slice()) { None } else { Some(v) },
    }
}

} // verus!
