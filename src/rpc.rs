//! The JSON-RPC dispatch of an in-process tool server: which requests are
//! answered at once, which need a tool, and the replies.

use vstd::prelude::*;
use vstd::string::StringExecFns;
use crate::fields::{get_str, same_text, str_field};
use crate::error::ClaudeAgentError;
use crate::fields::{get_u64, u64_field};
use crate::json::{json_member, json_member_text, json_quoted, member, member_text, quote};
use crate::text::{decimal, decimal_string};

verus! {

/// What serving one JSON-RPC message takes.
#[derive(Debug, Clone)]
pub enum RpcStep {
    /// List the tools, then answer with `tools_list_reply(id, tools)`.
    ListTools { id: String },
    /// Call the tool `name` with `arguments` (JSON text), then answer with
    /// `call_reply(id, outcome)`.
    CallTool { id: String, name: String, arguments: String },
    /// Answer at once with this message.
    Reply(String),
}

/// The request id as JSON text, `null` when there is none.
pub open spec fn id_of(message: Seq<u8>) -> Seq<char> {
    match json_member_text(message, "id"@) {
        Some(t) => t,
        None => "null"@,
    }
}

/// A JSON-RPC error answer.
pub open spec fn error_reply(id: Seq<char>, code: Seq<char>, message: Seq<char>) -> Seq<char> {
    "{\"jsonrpc\":\"2.0\",\"id\":"@ + id + ",\"error\":{\"code\":"@ + code + ",\"message\":"@ + json_quoted(message)
        + "}}"@
}

/// A JSON-RPC result answer.
pub open spec fn result_reply(id: Seq<char>, result: Seq<char>) -> Seq<char> {
    "{\"jsonrpc\":\"2.0\",\"id\":"@ + id + ",\"result\":"@ + result + "}"@
}

/// The answer to `initialize`: the protocol version, the tool capability
/// and the server's name.
pub open spec fn initialize_result(server_name: Seq<char>) -> Seq<char> {
    "{\"protocolVersion\":\"2024-11-05\",\"capabilities\":{\"tools\":{}},\"serverInfo\":{\"name\":"@ + json_quoted(
        server_name,
    ) + ",\"version\":\"1.0.0\"}}"@
}

/// Whether `step` is how the server `server_name` serves `message`.
pub open spec fn rpc_step_of(message: Seq<u8>, server_name: Seq<char>, step: RpcStep) -> bool {
    let id = id_of(message);
    match str_field(message, "method"@) {
        Some(m) => if m == "initialize"@ {
            step matches RpcStep::Reply(r) && r@ == result_reply(id, initialize_result(server_name))
        } else if m == "tools/list"@ {
            step matches RpcStep::ListTools { id: i } && i@ == id
        } else if m == "tools/call"@ {
            match json_member(message, "params"@) {
                None => step matches RpcStep::Reply(r) && r@ == error_reply(id, "-32602"@, "Missing params"@),
                Some(p) => match str_field(p, "name"@) {
                    None => step matches RpcStep::Reply(r) && r@ == error_reply(id, "-32602"@, "Missing tool name"@),
                    Some(name) => {
                        &&& step matches RpcStep::CallTool { id: i, name: n, arguments }
                        &&& i@ == id
                        &&& n@ == name
                        &&& arguments@ == match json_member_text(p, "arguments"@) {
                            Some(a) => a,
                            None => "{}"@,
                        }
                    },
                },
            }
        } else if m == "notifications/initialized"@ {
            step matches RpcStep::Reply(r) && r@ == "{\"jsonrpc\":\"2.0\",\"result\":{}}"@
        } else {
            step matches RpcStep::Reply(r) && r@ == error_reply(id, "-32601"@, "Method not found: "@ + m)
        },
        None => step matches RpcStep::Reply(r) && r@ == error_reply(id, "-32601"@, "Method not found"@),
    }
}

/// A JSON-RPC error answer.
pub fn rpc_error(id: &str, code: &str, message: &str) -> (r: String)
    ensures
        r@ == error_reply(id@, code@, message@),
{
    let mut out = String::from_str("{\"jsonrpc\":\"2.0\",\"id\":");
    out.append(id);
    out.append(",\"error\":{\"code\":");
    out.append(code);
    out.append(",\"message\":");
    out.append(quote(message).as_str());
    out.append("}}");
    out
}

/// A JSON-RPC result answer.
pub fn rpc_result(id: &str, result: &str) -> (r: String)
    ensures
        r@ == result_reply(id@, result@),
{
    let mut out = String::from_str("{\"jsonrpc\":\"2.0\",\"id\":");
    out.append(id);
    out.append(",\"result\":");
    out.append(result);
    out.append("}");
    out
}

/// Decides how the server `server_name` serves one JSON-RPC message.
pub fn plan_rpc(message: &[u8], server_name: &str) -> (r: RpcStep)
    ensures
        rpc_step_of(message@, server_name@, r),
{
    let id = match member_text(message, "id") {
        Some(t) => t,
        None => String::from_str("null"),
    };
    let method = match get_str(message, "method") {
        Some(m) => m,
        None => return RpcStep::Reply(rpc_error(id.as_str(), "-32601", "Method not found")),
    };
    if same_text(&method, "initialize") {
        let mut result = String::from_str(
            "{\"protocolVersion\":\"2024-11-05\",\"capabilities\":{\"tools\":{}},\"serverInfo\":{\"name\":",
        );
        result.append(quote(server_name).as_str());
        result.append(",\"version\":\"1.0.0\"}}");
        RpcStep::Reply(rpc_result(id.as_str(), result.as_str()))
    } else if same_text(&method, "tools/list") {
        RpcStep::ListTools { id }
    } else if same_text(&method, "tools/call") {
        let params = match member(message, "params") {
            Some(p) => p,
            None => return RpcStep::Reply(rpc_error(id.as_str(), "-32602", "Missing params")),
        };
        let name = match get_str(params.as_slice(), "name") {
            Some(n) => n,
            None => return RpcStep::Reply(rpc_error(id.as_str(), "-32602", "Missing tool name")),
        };
        let arguments = match member_text(params.as_slice(), "arguments") {
            Some(a) => a,
            None => String::from_str("{}"),
        };
        RpcStep::CallTool { id, name, arguments }
    } else if same_text(&method, "notifications/initialized") {
        RpcStep::Reply(String::from_str("{\"jsonrpc\":\"2.0\",\"result\":{}}"))
    } else {
        let mut text = String::from_str("Method not found: ");
        text.append(method.as_str());
        RpcStep::Reply(rpc_error(id.as_str(), "-32601", text.as_str()))
    }
}

/// Whether `e` is the tool-server error with detail `detail`.
pub open spec fn mcp_error(e: ClaudeAgentError, detail: Seq<char>) -> bool {
    e matches ClaudeAgentError::Mcp(d) && d@ == detail
}

/// Whether `r` is how a subprocess tool server named `server_name` serves
/// a relayed `message`: it answers `initialize` itself, forwards listing and
/// calling tools, and fails on anything else.
pub open spec fn stdio_step_of(message: Seq<u8>, server_name: Seq<char>, r: Result<RpcStep, ClaudeAgentError>) -> bool {
    let id = id_of(message);
    match str_field(message, "method"@) {
        Some(m) => if m == "initialize"@ {
            r matches Ok(RpcStep::Reply(x)) && x@ == result_reply(id, initialize_result(server_name))
        } else if m == "tools/list"@ {
            r matches Ok(RpcStep::ListTools { id: i }) && i@ == id
        } else if m == "tools/call"@ {
            match json_member(message, "params"@) {
                None => r matches Err(e) && mcp_error(e, "Missing params"@),
                Some(p) => match str_field(p, "name"@) {
                    None => r matches Err(e) && mcp_error(e, "Missing tool name"@),
                    Some(name) => {
                        &&& r matches Ok(RpcStep::CallTool { id: i, name: n, arguments })
                        &&& i@ == id
                        &&& n@ == name
                        &&& arguments@ == match json_member_text(p, "arguments"@) {
                            Some(a) => a,
                            None => "{}"@,
                        }
                    },
                },
            }
        } else {
            r matches Err(e) && mcp_error(e, "Unsupported method: "@ + m)
        },
        None => r matches Err(e) && mcp_error(e, "Unsupported method: unknown"@),
    }
}

/// Decides how a subprocess tool server named `server_name` serves a
/// relayed message. Requests it cannot serve are errors, not replies.
pub fn plan_stdio_rpc(message: &[u8], server_name: &str) -> (r: Result<RpcStep, ClaudeAgentError>)
    ensures
        stdio_step_of(message@, server_name@, r),
{
    let id = match member_text(message, "id") {
        Some(t) => t,
        None => String::from_str("null"),
    };
    let method = match get_str(message, "method") {
        Some(m) => m,
        None => return Err(ClaudeAgentError::Mcp(String::from_str("Unsupported method: unknown"))),
    };
    if same_text(&method, "initialize") {
        let mut result = String::from_str(
            "{\"protocolVersion\":\"2024-11-05\",\"capabilities\":{\"tools\":{}},\"serverInfo\":{\"name\":",
        );
        result.append(quote(server_name).as_str());
        result.append(",\"version\":\"1.0.0\"}}");
        Ok(RpcStep::Reply(rpc_result(id.as_str(), result.as_str())))
    } else if same_text(&method, "tools/list") {
        Ok(RpcStep::ListTools { id })
    } else if same_text(&method, "tools/call") {
        let params = match member(message, "params") {
            Some(p) => p,
            None => return Err(ClaudeAgentError::Mcp(String::from_str("Missing params"))),
        };
        let name = match get_str(params.as_slice(), "name") {
            Some(n) => n,
            None => return Err(ClaudeAgentError::Mcp(String::from_str("Missing tool name"))),
        };
        let arguments = match member_text(params.as_slice(), "arguments") {
            Some(a) => a,
            None => String::from_str("{}"),
        };
        Ok(RpcStep::CallTool { id, name, arguments })
    } else {
        let mut text = String::from_str("Unsupported method: ");
        text.append(method.as_str());
        Err(ClaudeAgentError::Mcp(text))
    }
}

/// The tools of a subprocess server as its handler returns them:
/// `{"tools":<tools>}`, given the tools as a JSON array text.
pub fn tools_result(tools: &str) -> (r: String)
    ensures
        r@ == "{\"tools\":"@ + tools@ + "}"@,
{
    let mut out = String::from_str("{\"tools\":");
    out.append(tools);
    out.append("}");
    out
}

/// The answer to `tools/list`, given the tools as a JSON array text.
pub fn tools_list_reply(id: &str, tools: &str) -> (r: String)
    ensures
        r@ == result_reply(id@, "{\"tools\":"@ + tools@ + "}"@),
{
    let mut result = String::from_str("{\"tools\":");
    result.append(tools);
    result.append("}");
    rpc_result(id, result.as_str())
}

/// The answer to `tools/call`: the tool's result (JSON text), or a server
/// error carrying the tool's failure message.
pub fn call_reply(id: &str, outcome: Result<String, String>) -> (r: String)
    ensures
        match outcome {
            Ok(result) => r@ == result_reply(id@, result@),
            Err(message) => r@ == error_reply(id@, "-32000"@, message@),
        },
{
    match outcome {
        Ok(result) => rpc_result(id, result.as_str()),
        Err(message) => rpc_error(id, "-32000", message.as_str()),
    }
}

/// The request `method` with `params` (JSON text) under the numeric `id`.
pub open spec fn request_text(id: u64, method: Seq<char>, params: Seq<char>) -> Seq<char> {
    "{\"jsonrpc\":\"2.0\",\"id\":"@ + decimal(id as nat) + ",\"method\":"@ + json_quoted(method) + ",\"params\":"@
        + params + "}"@
}

/// A JSON-RPC request to send to a tool server.
pub fn rpc_request(id: u64, method: &str, params: &str) -> (r: String)
    ensures
        r@ == request_text(id, method@, params@),
{
    let mut out = String::from_str("{\"jsonrpc\":\"2.0\",\"id\":");
    out.append(decimal_string(id).as_str());
    out.append(",\"method\":");
    out.append(quote(method).as_str());
    out.append(",\"params\":");
    out.append(params);
    out.append("}");
    out
}

/// How a tool server answered a request.
#[derive(Debug, Clone)]
pub enum RpcAnswer {
    /// The result, as JSON text (the whole message when it has no result).
    Result(Vec<u8>),
    /// The error object, as JSON text.
    Error(String),
}

/// Whether `r` is what the frame `frame` answers: the numeric request id
/// and the outcome; `None` for a frame without a numeric id.
pub open spec fn answer_of(frame: Seq<u8>, r: Option<(u64, RpcAnswer)>) -> bool {
    match u64_field(frame, "id"@) {
        None => r.is_none(),
        Some(id) => {
            &&& r matches Some((i, answer))
            &&& i == id
            &&& match json_member_text(frame, "error"@) {
                Some(e) => answer matches RpcAnswer::Error(t) && t@ == e,
                None => answer matches RpcAnswer::Result(b) && b@ == match json_member(frame, "result"@) {
                    Some(res) => res,
                    None => frame,
                },
            }
        },
    }
}

/// Reads which request a tool server's message answers, and how.
pub fn rpc_answer(frame: &[u8]) -> (r: Option<(u64, RpcAnswer)>)
    ensures
        answer_of(frame@, r),
{
    let id = match get_u64(frame, "id") {
        Some(id) => id,
        None => return None,
    };
    if let Some(error) = member_text(frame, "error") {
        return Some((id, RpcAnswer::Error(error)));
    }
    match member(frame, "result") {
        Some(result) => Some((id, RpcAnswer::Result(result))),
        None => {
            let mut whole: Vec<u8> = Vec::new();
            let mut i: usize = 0;
            while i < frame.len()
                invariant
                    0 <= i <= frame@.len(),
                    whole@ == frame@.take(i as int),
                decreases frame@.len() - i,
            {
                whole.push(frame[i]);
                proof {
                    assert(whole@ =~= frame@.take(i + 1));
                }
                i = i + 1;
            }
            proof {
                assert(whole@ =~= frame@);
            }
            Some((id, RpcAnswer::Result(whole)))
        },
    }
}

} // verus!
