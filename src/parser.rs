//! Parsing single lines and reading the kind of a frame.

use vstd::prelude::*;
use vstd::string::{StrSliceExecFns, StringExecFns};
use crate::error::ClaudeAgentError;
use crate::fields::{get_str, same_text};
use crate::json::{check_json, json_well_formed, opt_text};
use crate::message::tag_of;
use crate::text::{trim, trimmed_bounds};

verus! {

/// Parses one line of output as a JSON document, ignoring surrounding
/// whitespace; returns the document's bytes. An empty or blank line is an
/// error, as is a line that is not one JSON value.
pub fn parse_line(line: &str) -> (r: Result<Vec<u8>, ClaudeAgentError>)
    ensures
        r is Ok <==> trim(line@).len() > 0 && json_well_formed(vstd::utf8::encode_utf8(trim(line@))),
        r matches Ok(b) ==> b@ == vstd::utf8::encode_utf8(trim(line@)),
        r matches Err(e) ==> e is JSONDecode,
{
    let n = line.unicode_len();
    let (a, b) = trimmed_bounds(line, 0, n);
    proof {
        assert(line@.subrange(0, n as int) =~= line@);
    }
    if a == b {
        return Err(ClaudeAgentError::JSONDecode(String::from_str("Empty line")));
    }
    let doc = line.substring_char(a, b).as_bytes_vec();
    match check_json(doc.as_slice()) {
        Ok(()) => Ok(doc),
        Err(reason) => {
            let mut detail = String::from_str("JSON parse error: ");
            detail.append(reason.as_str());
            Err(ClaudeAgentError::JSONDecode(detail))
        },
    }
}

/// The `type` tag of a frame, if it has one.
pub fn get_message_type(frame: &[u8]) -> (r: Option<String>)
    ensures
        opt_text(r) == tag_of(frame@),
{
    get_str(frame, "type")
}

/// Whether a frame is a result message, the end of a response.
pub fn is_result_message(frame: &[u8]) -> (r: bool)
    ensures
        r == (tag_of(frame@) == Some("result"@)),
{
    match get_str(frame, "type") {
        Some(t) => same_text(&t, "result"),
        None => false,
    }
}

} // verus!
