//! Comparison of secrets without data-dependent timing, and input validation.

use vstd::prelude::*;
use subtle::ConstantTimeEq;
use vstd::string::{StrSliceExecFns, StringExecFns, StringSliceAdditionalSpecFns};
use crate::json::json_well_formed;
use crate::text::{blank, decimal, decimal_string, is_unicode_ws, unicode_ws};

verus! {

/// Relies on subtle's `ConstantTimeEq` for byte slices: on slices of equal
/// length it yields 1 exactly when they are equal, comparing every byte.
#[verifier::external_body]
fn ct_equal(a: &[u8], b: &[u8]) -> (r: bool)
    requires
        a@.len() == b@.len(),
    ensures
        r == (a@ == b@),
{
    a.ct_eq(b).into()
}

/// Compares two byte strings; for equal lengths the time taken does not
/// depend on their contents.
pub fn constant_time_eq(a: &[u8], b: &[u8]) -> (r: bool)
    ensures
        r == (a@ == b@),
{
    if a.len() != b.len() {
        return false;
    }
    ct_equal(a, b)
}

/// Compares two strings by their bytes, as [`constant_time_eq`] does.
pub fn constant_time_str_eq(a: &str, b: &str) -> (r: bool)
    ensures
        r == (a@ == b@),
{
    proof {
        vstd::utf8::encode_utf8_decode_utf8(a@);
        vstd::utf8::encode_utf8_decode_utf8(b@);
    }
    constant_time_eq(a.as_bytes(), b.as_bytes())
}

/// A rejected input: the field it came from and what is wrong with it.
#[derive(Debug, Clone)]
pub struct ValidationError {
    pub field: String,
    pub message: String,
}

impl ValidationError {
    /// Renders the error as `field: message`.
    pub fn to_string(&self) -> (r: String)
        ensures
            r@ == self.field@ + ": "@ + self.message@,
    {
        let mut text = self.field.clone();
        text.append(": ");
        text.append(self.message.as_str());
        text
    }
}

/// Accepts a value that holds something besides whitespace.
pub fn validate_not_empty(field: &str, value: &str) -> (r: Result<(), ValidationError>)
    ensures
        r is Ok <==> !blank(value@),
        r matches Err(e) ==> e.field@ == field@ && e.message@ == "must not be empty"@,
{
    let n = value.unicode_len();
    let mut i: usize = 0;
    while i < n
        invariant
            0 <= i <= n == value@.len(),
            forall|k: int| 0 <= k < i ==> unicode_ws(#[trigger] value@[k]),
        decreases n - i,
    {
        if !is_unicode_ws(value.get_char(i)) {
            return Ok(());
        }
        i = i + 1;
    }
    Err(ValidationError { field: String::from_str(field), message: String::from_str("must not be empty") })
}

/// Accepts a value of at most `max` bytes.
pub fn validate_max_length(field: &str, value: &str, max: usize) -> (r: Result<(), ValidationError>)
    ensures
        r is Ok <==> value.spec_bytes().len() <= max,
        r matches Err(e) ==> e.field@ == field@ && e.message@ == "must not exceed "@ + decimal(max as nat)
            + " characters"@,
{
    if value.as_bytes().len() > max {
        let mut message = String::from_str("must not exceed ");
        message.append(decimal_string(max as u64).as_str());
        message.append(" characters");
        Err(ValidationError { field: String::from_str(field), message })
    } else {
        Ok(())
    }
}

/// The length in bytes of the compact serialisation of a JSON document.
pub uninterp spec fn json_compact_len(doc: Seq<u8>) -> nat;

/// Relies on serde_json::from_slice and the `Display` of serde_json::Value,
/// which writes the compact serialisation.
#[verifier::external_body]
fn compact_len(doc: &[u8]) -> (r: Option<usize>)
    ensures
        r is Some <==> json_well_formed(doc@),
        r matches Some(n) ==> n == json_compact_len(doc@),
{
    match serde_json::from_slice::<serde_json::Value>(doc) {
        Ok(value) => Some(value.to_string().len()),
        Err(_) => None,
    }
}

/// Accepts a JSON document whose compact serialisation is at most
/// `max_bytes` long. Bytes that are not one JSON value are rejected too.
pub fn validate_json_size(field: &str, value: &[u8], max_bytes: usize) -> (r: Result<(), ValidationError>)
    ensures
        r is Ok <==> json_well_formed(value@) && json_compact_len(value@) <= max_bytes,
        r matches Err(e) ==> e.field@ == field@,
        r matches Err(e) ==> if json_well_formed(value@) {
            e.message@ == "JSON payload exceeds "@ + decimal(max_bytes as nat) + " bytes (got "@ + decimal(
                json_compact_len(value@),
            ) + " bytes)"@
        } else {
            e.message@ == "must be one JSON value"@
        },
{
    match compact_len(value) {
        None => Err(ValidationError { field: String::from_str(field), message: String::from_str("must be one JSON value") }),
        Some(size) => {
            if size > max_bytes {
                let mut message = String::from_str("JSON payload exceeds ");
                message.append(decimal_string(max_bytes as u64).as_str());
                message.append(" bytes (got ");
                message.append(decimal_string(size as u64).as_str());
                message.append(" bytes)");
                Err(ValidationError { field: String::from_str(field), message })
            } else {
                Ok(())
            }
        },
    }
}

} // verus!
