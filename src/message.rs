//! The typed model of conversational frames and its decoding.
//!
//! A frame is decoded by its `type` tag. Fields of any JSON value (a tool's
//! input, usage figures, a cost) are kept as the JSON text of that value.

use vstd::prelude::*;
use vstd::string::StringExecFns;
use crate::error::ClaudeAgentError;
use crate::fields::{
    bool_field, get_bool, get_opt_bool, get_opt_raw, get_opt_str, get_opt_u32, get_str, get_u32,
    get_u64, opt_bool_field, opt_raw_field, opt_str_field, opt_u32_field, same_text,
    str_field, u32_field, u64_field,
};
use crate::json::{
    array_items, json_is_null, json_items, json_member, json_string, member, null_value, opt_bytes,
    opt_text, seq_of_bytes, string_value,
};

verus! {

#[derive(Debug, Clone)]
pub struct TextBlock {
    pub text: String,
}

#[derive(Debug, Clone)]
pub struct ThinkingBlock {
    pub thinking: String,
    pub signature: String,
}

#[derive(Debug, Clone)]
pub struct ToolUseBlock {
    pub id: String,
    pub name: String,
    /// The JSON text of the tool's input.
    pub input: Vec<u8>,
}

#[derive(Debug, Clone)]
pub struct ToolResultBlock {
    pub tool_use_id: String,
    pub content: Option<ToolResultContent>,
    pub is_error: Option<bool>,
}

/// What a tool returned: a text, or a list of JSON values (each as its text).
#[derive(Debug, Clone)]
pub enum ToolResultContent {
    Text(String),
    Blocks(Vec<Vec<u8>>),
}

/// One entry of a message's content, tagged on the wire by `type`.
#[derive(Debug, Clone)]
pub enum ContentBlock {
    Text(TextBlock),
    Thinking(ThinkingBlock),
    ToolUse(ToolUseBlock),
    ToolResult(ToolResultBlock),
}

/// A user message's content: a plain text or a list of blocks.
#[derive(Debug, Clone)]
pub enum MessageContent {
    Text(String),
    Blocks(Vec<ContentBlock>),
}

#[derive(Debug, Clone)]
pub struct UserMessage {
    pub content: MessageContent,
    pub uuid: Option<String>,
    pub parent_tool_use_id: Option<String>,
}

#[derive(Debug, Clone, Copy, PartialEq, Eq)]
pub enum AssistantMessageError {
    AuthenticationFailed,
    BillingError,
    RateLimit,
    InvalidRequest,
    ServerError,
    Unknown,
}

#[derive(Debug, Clone)]
pub struct AssistantMessage {
    pub content: Vec<ContentBlock>,
    pub model: String,
    pub parent_tool_use_id: Option<String>,
    pub error: Option<AssistantMessageError>,
}

#[derive(Debug, Clone)]
pub struct SystemMessage {
    pub subtype: String,
    /// The JSON text of the attached data, absent when there is none.
    pub data: Option<Vec<u8>>,
}

#[derive(Debug, Clone)]
pub struct ResultMessage {
    pub subtype: String,
    pub duration_ms: u64,
    pub duration_api_ms: u64,
    pub is_error: bool,
    pub num_turns: u32,
    pub session_id: String,
    /// The JSON text of the reported cost in US dollars.
    pub total_cost_usd: Option<Vec<u8>>,
    /// The JSON text of the usage figures.
    pub usage: Option<Vec<u8>>,
    pub result: Option<String>,
    /// The JSON text of the structured output.
    pub structured_output: Option<Vec<u8>>,
}

#[derive(Debug, Clone)]
pub struct StreamEvent {
    pub uuid: String,
    pub session_id: String,
    /// The JSON text of the raw event.
    pub event: Vec<u8>,
    pub parent_tool_use_id: Option<String>,
}

#[derive(Debug, Clone)]
pub struct MessageStart {
    pub message: AssistantMessage,
}

#[derive(Debug, Clone)]
pub struct ContentBlockStart {
    pub index: u32,
    pub content_block: ContentBlock,
}

#[derive(Debug, Clone)]
pub struct ContentBlockDelta {
    pub index: u32,
    pub delta: Delta,
}

/// An increment of a content block, tagged on the wire by `type`.
#[derive(Debug, Clone)]
pub enum Delta {
    TextDelta { text: String },
    InputJsonDelta { partial_json: String },
    ToolUse { id: Option<String>, name: Option<String>, input: Option<Vec<u8>> },
}

#[derive(Debug, Clone)]
pub struct ContentBlockStop {
    pub index: u32,
}

#[derive(Debug, Clone)]
pub struct MessageDelta {
    pub delta: MessageDeltaBody,
    pub usage: Option<Usage>,
}

#[derive(Debug, Clone)]
pub struct MessageDeltaBody {
    pub stop_reason: Option<String>,
    pub stop_sequence: Option<String>,
}

#[derive(Debug, Clone)]
pub struct MessageStop;

#[derive(Debug, Clone)]
pub struct Ping {
    pub event_type: Option<String>,
}

#[derive(Debug, Clone)]
pub struct ErrorEvent {
    pub error: ErrorBody,
}

#[derive(Debug, Clone)]
pub struct ErrorBody {
    pub error_type: String,
    pub message: String,
}

#[derive(Debug, Clone)]
pub struct Usage {
    pub input_tokens: Option<u32>,
    pub output_tokens: u32,
}

/// A conversational frame, tagged on the wire by `type`.
#[derive(Debug, Clone)]
pub enum Message {
    User(UserMessage),
    Assistant(AssistantMessage),
    System(SystemMessage),
    Result(ResultMessage),
    StreamEvent(StreamEvent),
    MessageStart(MessageStart),
    ContentBlockStart(ContentBlockStart),
    ContentBlockDelta(ContentBlockDelta),
    ContentBlockStop(ContentBlockStop),
    MessageDelta(MessageDelta),
    MessageStop(MessageStop),
    Ping(Ping),
    Error(ErrorEvent),
}

// ---------------------------------------------------------------- blocks

/// The `type` tag of a document.
pub open spec fn tag_of(doc: Seq<u8>) -> Option<Seq<char>> {
    str_field(doc, "type"@)
}

/// Whether `c` is what the `content` field of a tool result holds.
pub open spec fn result_content_of(doc: Seq<u8>, c: Option<ToolResultContent>) -> bool {
    match json_member(doc, "content"@) {
        None => c is None,
        Some(v) => if json_is_null(v) {
            c is None
        } else {
            match json_string(v) {
                Some(s) => c matches Some(ToolResultContent::Text(x)) && x@ == s,
                None => match json_items(v) {
                    Some(items) => c matches Some(ToolResultContent::Blocks(bs)) && seq_of_bytes(bs@) == items,
                    None => false,
                },
            }
        },
    }
}

/// Whether `b` is the content block that `doc` encodes.
pub open spec fn block_of(doc: Seq<u8>, b: ContentBlock) -> bool {
    let tag = tag_of(doc);
    match b {
        ContentBlock::Text(x) => tag == Some("text"@) && str_field(doc, "text"@) == Some(x.text@),
        ContentBlock::Thinking(x) => {
            &&& tag == Some("thinking"@)
            &&& str_field(doc, "thinking"@) == Some(x.thinking@)
            &&& str_field(doc, "signature"@) == Some(x.signature@)
        },
        ContentBlock::ToolUse(x) => {
            &&& tag == Some("tool_use"@)
            &&& str_field(doc, "id"@) == Some(x.id@)
            &&& str_field(doc, "name"@) == Some(x.name@)
            &&& json_member(doc, "input"@) == Some(x.input@)
        },
        ContentBlock::ToolResult(x) => {
            &&& tag == Some("tool_result"@)
            &&& str_field(doc, "tool_use_id"@) == Some(x.tool_use_id@)
            &&& result_content_of(doc, x.content)
            &&& opt_bool_field(doc, "is_error"@) == Some(x.is_error)
        },
    }
}

/// Whether `doc` encodes some content block.
pub open spec fn block_ok(doc: Seq<u8>) -> bool {
    let tag = tag_of(doc);
    ||| tag == Some("text"@) && str_field(doc, "text"@).is_some()
    ||| tag == Some("thinking"@) && str_field(doc, "thinking"@).is_some() && str_field(doc, "signature"@).is_some()
    ||| tag == Some("tool_use"@) && str_field(doc, "id"@).is_some() && str_field(doc, "name"@).is_some()
        && json_member(doc, "input"@).is_some()
    ||| tag == Some("tool_result"@) && str_field(doc, "tool_use_id"@).is_some()
        && opt_bool_field(doc, "is_error"@).is_some() && match json_member(doc, "content"@) {
        None => true,
        Some(v) => json_is_null(v) || json_string(v).is_some() || json_items(v).is_some(),
    }
}

/// Whether `bs` are the blocks that the documents `items` encode, in order.
pub open spec fn blocks_of(items: Seq<Seq<u8>>, bs: Seq<ContentBlock>) -> bool {
    &&& bs.len() == items.len()
    &&& forall|i: int| 0 <= i < items.len() ==> block_of(#[trigger] items[i], bs[i])
}

/// Whether every document of `items` encodes a content block.
pub open spec fn blocks_ok(items: Seq<Seq<u8>>) -> bool {
    forall|i: int| 0 <= i < items.len() ==> block_ok(#[trigger] items[i])
}

fn shape_error(what: &str) -> (r: ClaudeAgentError)
    ensures
        r is MessageParse,
{
    let mut detail = String::from_str("Failed to parse message: invalid or missing ");
    detail.append(what);
    ClaudeAgentError::MessageParse(detail)
}

fn decode_result_content(doc: &[u8]) -> (r: Option<Option<ToolResultContent>>)
    ensures
        match r {
            Some(c) => result_content_of(doc@, c),
            None => !(match json_member(doc@, "content"@) {
                None => true,
                Some(v) => json_is_null(v) || json_string(v).is_some() || json_items(v).is_some(),
            }),
        },
{
    match member(doc, "content") {
        None => Some(None),
        Some(v) => {
            if null_value(v.as_slice()) {
                Some(None)
            } else {
                match string_value(v.as_slice()) {
                    Some(s) => Some(Some(ToolResultContent::Text(s))),
                    None => match array_items(v.as_slice()) {
                        Some(items) => Some(Some(ToolResultContent::Blocks(items))),
                        None => None,
                    },
                }
            }
        },
    }
}

/// Decodes one content block.
pub fn decode_content_block(doc: &[u8]) -> (r: Result<ContentBlock, ClaudeAgentError>)
    ensures
        r matches Ok(b) ==> block_of(doc@, b),
        r matches Err(e) ==> !block_ok(doc@),
        r matches Err(e) ==> e is MessageParse,
{
    proof {
        reveal_strlit("text");
        reveal_strlit("thinking");
        reveal_strlit("tool_use");
        reveal_strlit("tool_result");
        assert("text"@.len() == 4);
        assert("thinking"@.len() == 8 && "thinking"@[1] == 'h');
        assert("tool_use"@.len() == 8 && "tool_use"@[1] == 'o');
        assert("tool_result"@.len() == 11);
    }
    let tag = match get_str(doc, "type") {
        Some(t) => t,
        None => return Err(shape_error("content block type")),
    };
    if same_text(&tag, "text") {
        match get_str(doc, "text") {
            Some(text) => {
                let b = ContentBlock::Text(TextBlock { text });
                Ok(b)
            },
            None => Err(shape_error("text")),
        }
    } else if same_text(&tag, "thinking") {
        match (get_str(doc, "thinking"), get_str(doc, "signature")) {
            (Some(thinking), Some(signature)) => {
                let b = ContentBlock::Thinking(ThinkingBlock { thinking, signature });
                Ok(b)
            },
            _ => Err(shape_error("thinking block")),
        }
    } else if same_text(&tag, "tool_use") {
        match (get_str(doc, "id"), get_str(doc, "name"), member(doc, "input")) {
            (Some(id), Some(name), Some(input)) => {
                let b = ContentBlock::ToolUse(ToolUseBlock { id, name, input });
                Ok(b)
            },
            _ => Err(shape_error("tool_use block")),
        }
    } else if same_text(&tag, "tool_result") {
        match (get_str(doc, "tool_use_id"), decode_result_content(doc), get_opt_bool(doc, "is_error")) {
            (Some(tool_use_id), Some(content), Some(is_error)) => {
                let b = ContentBlock::ToolResult(ToolResultBlock { tool_use_id, content, is_error });
                Ok(b)
            },
            _ => Err(shape_error("tool_result block")),
        }
    } else {
        Err(shape_error("content block type"))
    }
}

/// Decodes a list of content blocks, keeping their order.
pub fn decode_blocks(doc: &[u8]) -> (r: Result<Vec<ContentBlock>, ClaudeAgentError>)
    ensures
        match r {
            Ok(bs) => json_items(doc@) matches Some(items) && blocks_of(items, bs@),
            Err(e) => !(json_items(doc@) matches Some(items) && blocks_ok(items)) && e is MessageParse,
        },
{
    let items = match array_items(doc) {
        Some(items) => items,
        None => return Err(shape_error("content list")),
    };
    let ghost docs = seq_of_bytes(items@);
    let mut out: Vec<ContentBlock> = Vec::new();
    let mut i: usize = 0;
    while i < items.len()
        invariant
            0 <= i <= items@.len(),
            docs == seq_of_bytes(items@),
            json_items(doc@) == Some(docs),
            out@.len() == i,
            forall|k: int| 0 <= k < i ==> block_of(#[trigger] docs[k], out@[k]),
            forall|k: int| 0 <= k < i ==> block_ok(#[trigger] docs[k]),
        decreases items@.len() - i,
    {
        assert(docs[i as int] == items@[i as int]@);
        match decode_content_block(items[i].as_slice()) {
            Ok(b) => {
                out.push(b);
            },
            Err(e) => {
                return Err(e);
            },
        }
        i = i + 1;
    }
    Ok(out)
}

// ---------------------------------------------------------------- messages

/// Whether `c` is the content of the user message `doc`.
pub open spec fn user_content_of(doc: Seq<u8>, c: MessageContent) -> bool {
    match json_member(doc, "message"@) {
        None => c matches MessageContent::Text(s) && s@ == Seq::<char>::empty(),
        Some(m) => match json_member(m, "content"@) {
            None => false,
            Some(v) => match json_string(v) {
                Some(s) => c matches MessageContent::Text(x) && x@ == s,
                None => match json_items(v) {
                    Some(items) => c matches MessageContent::Blocks(bs) && blocks_of(items, bs@),
                    None => false,
                },
            },
        },
    }
}

/// Whether the user message `doc` has a content.
pub open spec fn user_content_ok(doc: Seq<u8>) -> bool {
    match json_member(doc, "message"@) {
        None => true,
        Some(m) => match json_member(m, "content"@) {
            None => false,
            Some(v) => json_string(v).is_some() || (json_items(v) matches Some(items) && blocks_ok(items)),
        },
    }
}

pub open spec fn user_of(doc: Seq<u8>, u: UserMessage) -> bool {
    &&& user_content_of(doc, u.content)
    &&& opt_str_field(doc, "uuid"@) == Some(opt_text(u.uuid))
    &&& opt_str_field(doc, "parent_tool_use_id"@) == Some(opt_text(u.parent_tool_use_id))
}

pub open spec fn user_ok(doc: Seq<u8>) -> bool {
    &&& user_content_ok(doc)
    &&& opt_str_field(doc, "uuid"@).is_some()
    &&& opt_str_field(doc, "parent_tool_use_id"@).is_some()
}

/// The error kind that a wire name stands for.
pub open spec fn assistant_error_named(name: Seq<char>) -> Option<AssistantMessageError> {
    if name == "authentication_failed"@ {
        Some(AssistantMessageError::AuthenticationFailed)
    } else if name == "billing_error"@ {
        Some(AssistantMessageError::BillingError)
    } else if name == "rate_limit"@ {
        Some(AssistantMessageError::RateLimit)
    } else if name == "invalid_request"@ {
        Some(AssistantMessageError::InvalidRequest)
    } else if name == "server_error"@ {
        Some(AssistantMessageError::ServerError)
    } else if name == "unknown"@ {
        Some(AssistantMessageError::Unknown)
    } else {
        None
    }
}

/// The optional `error` field of an assistant message.
pub open spec fn assistant_error_field(doc: Seq<u8>) -> Option<Option<AssistantMessageError>> {
    match opt_str_field(doc, "error"@) {
        Some(None) => Some(None),
        Some(Some(name)) => match assistant_error_named(name) {
            Some(k) => Some(Some(k)),
            None => None,
        },
        None => None,
    }
}

/// Whether `content` and `model` are what the body of the assistant message
/// `doc` holds; both default to empty.
pub open spec fn assistant_body_of(doc: Seq<u8>, content: Seq<ContentBlock>, model: Seq<char>) -> bool {
    match json_member(doc, "message"@) {
        None => content.len() == 0 && model.len() == 0,
        Some(m) => {
            &&& match json_member(m, "content"@) {
                None => content.len() == 0,
                Some(v) => json_items(v) matches Some(items) && blocks_of(items, content),
            }
            &&& match json_member(m, "model"@) {
                None => model.len() == 0,
                Some(v) => json_string(v) == Some(model),
            }
        },
    }
}

pub open spec fn assistant_body_ok(doc: Seq<u8>) -> bool {
    match json_member(doc, "message"@) {
        None => true,
        Some(m) => {
            &&& match json_member(m, "content"@) {
                None => true,
                Some(v) => json_items(v) matches Some(items) && blocks_ok(items),
            }
            &&& match json_member(m, "model"@) {
                None => true,
                Some(v) => json_string(v).is_some(),
            }
        },
    }
}

pub open spec fn assistant_of(doc: Seq<u8>, a: AssistantMessage) -> bool {
    &&& assistant_body_of(doc, a.content@, a.model@)
    &&& opt_str_field(doc, "parent_tool_use_id"@) == Some(opt_text(a.parent_tool_use_id))
    &&& assistant_error_field(doc) == Some(a.error)
}

pub open spec fn assistant_ok(doc: Seq<u8>) -> bool {
    &&& assistant_body_ok(doc)
    &&& opt_str_field(doc, "parent_tool_use_id"@).is_some()
    &&& assistant_error_field(doc).is_some()
}

pub open spec fn system_of(doc: Seq<u8>, m: SystemMessage) -> bool {
    &&& str_field(doc, "subtype"@) == Some(m.subtype@)
    &&& opt_raw_field(doc, "data"@) == opt_bytes(m.data)
}

pub open spec fn result_of(doc: Seq<u8>, m: ResultMessage) -> bool {
    &&& str_field(doc, "subtype"@) == Some(m.subtype@)
    &&& u64_field(doc, "duration_ms"@) == Some(m.duration_ms)
    &&& u64_field(doc, "duration_api_ms"@) == Some(m.duration_api_ms)
    &&& bool_field(doc, "is_error"@) == Some(m.is_error)
    &&& u32_field(doc, "num_turns"@) == Some(m.num_turns)
    &&& str_field(doc, "session_id"@) == Some(m.session_id@)
    &&& opt_raw_field(doc, "total_cost_usd"@) == opt_bytes(m.total_cost_usd)
    &&& opt_raw_field(doc, "usage"@) == opt_bytes(m.usage)
    &&& opt_str_field(doc, "result"@) == Some(opt_text(m.result))
    &&& opt_raw_field(doc, "structured_output"@) == opt_bytes(m.structured_output)
}

pub open spec fn result_ok(doc: Seq<u8>) -> bool {
    &&& str_field(doc, "subtype"@).is_some()
    &&& u64_field(doc, "duration_ms"@).is_some()
    &&& u64_field(doc, "duration_api_ms"@).is_some()
    &&& bool_field(doc, "is_error"@).is_some()
    &&& u32_field(doc, "num_turns"@).is_some()
    &&& str_field(doc, "session_id"@).is_some()
    &&& opt_str_field(doc, "result"@).is_some()
}

pub open spec fn stream_event_of(doc: Seq<u8>, m: StreamEvent) -> bool {
    &&& str_field(doc, "uuid"@) == Some(m.uuid@)
    &&& str_field(doc, "session_id"@) == Some(m.session_id@)
    &&& json_member(doc, "event"@) == Some(m.event@)
    &&& opt_str_field(doc, "parent_tool_use_id"@) == Some(opt_text(m.parent_tool_use_id))
}

pub open spec fn stream_event_ok(doc: Seq<u8>) -> bool {
    &&& str_field(doc, "uuid"@).is_some()
    &&& str_field(doc, "session_id"@).is_some()
    &&& json_member(doc, "event"@).is_some()
    &&& opt_str_field(doc, "parent_tool_use_id"@).is_some()
}

pub open spec fn delta_of(doc: Seq<u8>, d: Delta) -> bool {
    match tag_of(doc) {
        None => false,
        Some(tag) => if tag == "text_delta"@ {
            d matches Delta::TextDelta { text } && str_field(doc, "text"@) == Some(text@)
        } else if tag == "input_json_delta"@ {
            d matches Delta::InputJsonDelta { partial_json } && str_field(doc, "partial_json"@) == Some(partial_json@)
        } else if tag == "tool_use"@ {
            &&& d matches Delta::ToolUse { id, name, input }
            &&& opt_str_field(doc, "id"@) == Some(opt_text(id))
            &&& opt_str_field(doc, "name"@) == Some(opt_text(name))
            &&& opt_raw_field(doc, "input"@) == opt_bytes(input)
        } else {
            false
        },
    }
}

pub open spec fn delta_ok(doc: Seq<u8>) -> bool {
    match tag_of(doc) {
        None => false,
        Some(tag) => if tag == "text_delta"@ {
            str_field(doc, "text"@).is_some()
        } else if tag == "input_json_delta"@ {
            str_field(doc, "partial_json"@).is_some()
        } else if tag == "tool_use"@ {
            opt_str_field(doc, "id"@).is_some() && opt_str_field(doc, "name"@).is_some()
        } else {
            false
        },
    }
}

pub open spec fn usage_of(doc: Seq<u8>, u: Usage) -> bool {
    opt_u32_field(doc, "input_tokens"@) == Some(u.input_tokens) && u32_field(doc, "output_tokens"@) == Some(u.output_tokens)
}

pub open spec fn usage_ok(doc: Seq<u8>) -> bool {
    opt_u32_field(doc, "input_tokens"@).is_some() && u32_field(doc, "output_tokens"@).is_some()
}

pub open spec fn message_delta_of(doc: Seq<u8>, x: MessageDelta) -> bool {
    &&& json_member(doc, "delta"@) matches Some(body)
    &&& opt_str_field(body, "stop_reason"@) == Some(opt_text(x.delta.stop_reason))
    &&& opt_str_field(body, "stop_sequence"@) == Some(opt_text(x.delta.stop_sequence))
    &&& match opt_raw_field(doc, "usage"@) {
        None => x.usage.is_none(),
        Some(u) => x.usage matches Some(v) && usage_of(u, v),
    }
}

pub open spec fn message_delta_ok(doc: Seq<u8>) -> bool {
    &&& json_member(doc, "delta"@) matches Some(body)
    &&& opt_str_field(body, "stop_reason"@).is_some()
    &&& opt_str_field(body, "stop_sequence"@).is_some()
    &&& match opt_raw_field(doc, "usage"@) {
        None => true,
        Some(u) => usage_ok(u),
    }
}

/// Whether `m` is what the frame `doc` decodes to.
pub open spec fn message_of(doc: Seq<u8>, m: Message) -> bool {
    match tag_of(doc) {
        None => false,
        Some(tag) => if tag == "user"@ {
            m matches Message::User(u) && user_of(doc, u)
        } else if tag == "assistant"@ {
            m matches Message::Assistant(a) && assistant_of(doc, a)
        } else if tag == "system"@ {
            m matches Message::System(x) && system_of(doc, x)
        } else if tag == "result"@ {
            m matches Message::Result(x) && result_of(doc, x)
        } else if tag == "stream_event"@ {
            m matches Message::StreamEvent(x) && stream_event_of(doc, x)
        } else if tag == "message_start"@ {
            m matches Message::MessageStart(x) && (json_member(doc, "message"@) matches Some(inner)
                && assistant_of(inner, x.message))
        } else if tag == "content_block_start"@ {
            &&& m matches Message::ContentBlockStart(x)
            &&& u32_field(doc, "index"@) == Some(x.index)
            &&& json_member(doc, "content_block"@) matches Some(inner) && block_of(inner, x.content_block)
        } else if tag == "content_block_delta"@ {
            &&& m matches Message::ContentBlockDelta(x)
            &&& u32_field(doc, "index"@) == Some(x.index)
            &&& json_member(doc, "delta"@) matches Some(inner) && delta_of(inner, x.delta)
        } else if tag == "content_block_stop"@ {
            m matches Message::ContentBlockStop(x) && u32_field(doc, "index"@) == Some(x.index)
        } else if tag == "message_delta"@ {
            m matches Message::MessageDelta(x) && message_delta_of(doc, x)
        } else if tag == "message_stop"@ {
            m is MessageStop
        } else if tag == "ping"@ {
            m matches Message::Ping(x) && x.event_type.is_none()
        } else if tag == "error"@ {
            &&& m matches Message::Error(x)
            &&& json_member(doc, "error"@) matches Some(body)
            &&& str_field(body, "type"@) == Some(x.error.error_type@)
            &&& str_field(body, "message"@) == Some(x.error.message@)
        } else {
            false
        },
    }
}

/// Whether the frame `doc` decodes to some message.
pub open spec fn message_ok(doc: Seq<u8>) -> bool {
    match tag_of(doc) {
        None => false,
        Some(tag) => if tag == "user"@ {
            user_ok(doc)
        } else if tag == "assistant"@ {
            assistant_ok(doc)
        } else if tag == "system"@ {
            str_field(doc, "subtype"@).is_some()
        } else if tag == "result"@ {
            result_ok(doc)
        } else if tag == "stream_event"@ {
            stream_event_ok(doc)
        } else if tag == "message_start"@ {
            json_member(doc, "message"@) matches Some(inner) && assistant_ok(inner)
        } else if tag == "content_block_start"@ {
            u32_field(doc, "index"@).is_some() && (json_member(doc, "content_block"@) matches Some(inner)
                && block_ok(inner))
        } else if tag == "content_block_delta"@ {
            u32_field(doc, "index"@).is_some() && (json_member(doc, "delta"@) matches Some(inner) && delta_ok(inner))
        } else if tag == "content_block_stop"@ {
            u32_field(doc, "index"@).is_some()
        } else if tag == "message_delta"@ {
            message_delta_ok(doc)
        } else if tag == "message_stop"@ {
            true
        } else if tag == "ping"@ {
            true
        } else if tag == "error"@ {
            json_member(doc, "error"@) matches Some(body) && str_field(body, "type"@).is_some()
                && str_field(body, "message"@).is_some()
        } else {
            false
        },
    }
}

fn decode_opt_str(doc: &[u8], key: &str) -> (r: Result<Option<String>, ClaudeAgentError>)
    ensures
        match r {
            Ok(v) => opt_str_field(doc@, key@) == Some(opt_text(v)),
            Err(e) => opt_str_field(doc@, key@).is_none() && e is MessageParse,
        },
{
    match get_opt_str(doc, key) {
        Some(v) => Ok(v),
        None => Err(shape_error(key)),
    }
}

fn decode_str(doc: &[u8], key: &str) -> (r: Result<String, ClaudeAgentError>)
    ensures
        match r {
            Ok(v) => str_field(doc@, key@) == Some(v@),
            Err(e) => str_field(doc@, key@).is_none() && e is MessageParse,
        },
{
    match get_str(doc, key) {
        Some(v) => Ok(v),
        None => Err(shape_error(key)),
    }
}

fn decode_user(doc: &[u8]) -> (r: Result<UserMessage, ClaudeAgentError>)
    ensures
        match r {
            Ok(u) => user_of(doc@, u),
            Err(e) => !user_ok(doc@) && e is MessageParse,
        },
{
    let content = match member(doc, "message") {
        None => MessageContent::Text(String::new()),
        Some(body) => match member(body.as_slice(), "content") {
            None => return Err(shape_error("message content")),
            Some(v) => match string_value(v.as_slice()) {
                Some(text) => MessageContent::Text(text),
                None => MessageContent::Blocks(decode_blocks(v.as_slice())?),
            },
        },
    };
    let uuid = decode_opt_str(doc, "uuid")?;
    let parent_tool_use_id = decode_opt_str(doc, "parent_tool_use_id")?;
    Ok(UserMessage { content, uuid, parent_tool_use_id })
}

fn decode_assistant_error(doc: &[u8]) -> (r: Result<Option<AssistantMessageError>, ClaudeAgentError>)
    ensures
        match r {
            Ok(v) => assistant_error_field(doc@) == Some(v),
            Err(e) => assistant_error_field(doc@).is_none() && e is MessageParse,
        },
{
    let name = match decode_opt_str(doc, "error")? {
        None => return Ok(None),
        Some(name) => name,
    };
    let kind = if same_text(&name, "authentication_failed") {
        AssistantMessageError::AuthenticationFailed
    } else if same_text(&name, "billing_error") {
        AssistantMessageError::BillingError
    } else if same_text(&name, "rate_limit") {
        AssistantMessageError::RateLimit
    } else if same_text(&name, "invalid_request") {
        AssistantMessageError::InvalidRequest
    } else if same_text(&name, "server_error") {
        AssistantMessageError::ServerError
    } else if same_text(&name, "unknown") {
        AssistantMessageError::Unknown
    } else {
        return Err(shape_error("assistant error kind"));
    };
    Ok(Some(kind))
}

fn decode_assistant(doc: &[u8]) -> (r: Result<AssistantMessage, ClaudeAgentError>)
    ensures
        match r {
            Ok(a) => assistant_of(doc@, a),
            Err(e) => !assistant_ok(doc@) && e is MessageParse,
        },
{
    let (content, model) = match member(doc, "message") {
        None => (Vec::new(), String::new()),
        Some(body) => {
            let content = match member(body.as_slice(), "content") {
                None => Vec::new(),
                Some(v) => decode_blocks(v.as_slice())?,
            };
            let model = match member(body.as_slice(), "model") {
                None => String::new(),
                Some(v) => match string_value(v.as_slice()) {
                    Some(m) => m,
                    None => return Err(shape_error("model")),
                },
            };
            (content, model)
        },
    };
    let parent_tool_use_id = decode_opt_str(doc, "parent_tool_use_id")?;
    let error = decode_assistant_error(doc)?;
    Ok(AssistantMessage { content, model, parent_tool_use_id, error })
}

fn decode_result(doc: &[u8]) -> (r: Result<ResultMessage, ClaudeAgentError>)
    ensures
        match r {
            Ok(m) => result_of(doc@, m),
            Err(e) => !result_ok(doc@) && e is MessageParse,
        },
{
    let subtype = decode_str(doc, "subtype")?;
    let duration_ms = match get_u64(doc, "duration_ms") {
        Some(n) => n,
        None => return Err(shape_error("duration_ms")),
    };
    let duration_api_ms = match get_u64(doc, "duration_api_ms") {
        Some(n) => n,
        None => return Err(shape_error("duration_api_ms")),
    };
    let is_error = match get_bool(doc, "is_error") {
        Some(b) => b,
        None => return Err(shape_error("is_error")),
    };
    let num_turns = match get_u32(doc, "num_turns") {
        Some(n) => n,
        None => return Err(shape_error("num_turns")),
    };
    let session_id = decode_str(doc, "session_id")?;
    let result = decode_opt_str(doc, "result")?;
    Ok(ResultMessage {
        subtype,
        duration_ms,
        duration_api_ms,
        is_error,
        num_turns,
        session_id,
        total_cost_usd: get_opt_raw(doc, "total_cost_usd"),
        usage: get_opt_raw(doc, "usage"),
        result,
        structured_output: get_opt_raw(doc, "structured_output"),
    })
}

fn decode_stream_event(doc: &[u8]) -> (r: Result<StreamEvent, ClaudeAgentError>)
    ensures
        match r {
            Ok(m) => stream_event_of(doc@, m),
            Err(e) => !stream_event_ok(doc@) && e is MessageParse,
        },
{
    let uuid = decode_str(doc, "uuid")?;
    let session_id = decode_str(doc, "session_id")?;
    let event = match member(doc, "event") {
        Some(v) => v,
        None => return Err(shape_error("event")),
    };
    let parent_tool_use_id = decode_opt_str(doc, "parent_tool_use_id")?;
    Ok(StreamEvent { uuid, session_id, event, parent_tool_use_id })
}

fn decode_delta(doc: &[u8]) -> (r: Result<Delta, ClaudeAgentError>)
    ensures
        match r {
            Ok(d) => delta_of(doc@, d),
            Err(e) => !delta_ok(doc@) && e is MessageParse,
        },
{
    let tag = decode_str(doc, "type")?;
    if same_text(&tag, "text_delta") {
        Ok(Delta::TextDelta { text: decode_str(doc, "text")? })
    } else if same_text(&tag, "input_json_delta") {
        Ok(Delta::InputJsonDelta { partial_json: decode_str(doc, "partial_json")? })
    } else if same_text(&tag, "tool_use") {
        let id = decode_opt_str(doc, "id")?;
        let name = decode_opt_str(doc, "name")?;
        Ok(Delta::ToolUse { id, name, input: get_opt_raw(doc, "input") })
    } else {
        Err(shape_error("delta type"))
    }
}

fn decode_message_delta(doc: &[u8]) -> (r: Result<MessageDelta, ClaudeAgentError>)
    ensures
        match r {
            Ok(m) => message_delta_of(doc@, m),
            Err(e) => !message_delta_ok(doc@) && e is MessageParse,
        },
{
    let body = match member(doc, "delta") {
        Some(b) => b,
        None => return Err(shape_error("delta")),
    };
    let stop_reason = decode_opt_str(body.as_slice(), "stop_reason")?;
    let stop_sequence = decode_opt_str(body.as_slice(), "stop_sequence")?;
    let usage = match get_opt_raw(doc, "usage") {
        None => None,
        Some(u) => {
            let input_tokens = match get_opt_u32(u.as_slice(), "input_tokens") {
                Some(n) => n,
                None => return Err(shape_error("input_tokens")),
            };
            let output_tokens = match get_u32(u.as_slice(), "output_tokens") {
                Some(n) => n,
                None => return Err(shape_error("output_tokens")),
            };
            Some(Usage { input_tokens, output_tokens })
        },
    };
    Ok(MessageDelta { delta: MessageDeltaBody { stop_reason, stop_sequence }, usage })
}

/// Decodes a conversational frame into the typed message model, by its
/// `type` tag. Fails with a message-parse error exactly when the frame does
/// not have the shape of any message.
pub fn decode_message(doc: &[u8]) -> (r: Result<Message, ClaudeAgentError>)
    ensures
        match r {
            Ok(m) => message_of(doc@, m),
            Err(e) => !message_ok(doc@) && e is MessageParse,
        },
{
    let tag = decode_str(doc, "type")?;
    if same_text(&tag, "user") {
        Ok(Message::User(decode_user(doc)?))
    } else if same_text(&tag, "assistant") {
        Ok(Message::Assistant(decode_assistant(doc)?))
    } else if same_text(&tag, "system") {
        let subtype = decode_str(doc, "subtype")?;
        Ok(Message::System(SystemMessage { subtype, data: get_opt_raw(doc, "data") }))
    } else if same_text(&tag, "result") {
        Ok(Message::Result(decode_result(doc)?))
    } else if same_text(&tag, "stream_event") {
        Ok(Message::StreamEvent(decode_stream_event(doc)?))
    } else if same_text(&tag, "message_start") {
        let inner = match member(doc, "message") {
            Some(v) => v,
            None => return Err(shape_error("message")),
        };
        Ok(Message::MessageStart(MessageStart { message: decode_assistant(inner.as_slice())? }))
    } else if same_text(&tag, "content_block_start") {
        let index = match get_u32(doc, "index") {
            Some(n) => n,
            None => return Err(shape_error("index")),
        };
        let inner = match member(doc, "content_block") {
            Some(v) => v,
            None => return Err(shape_error("content_block")),
        };
        let content_block = decode_content_block(inner.as_slice())?;
        Ok(Message::ContentBlockStart(ContentBlockStart { index, content_block }))
    } else if same_text(&tag, "content_block_delta") {
        let index = match get_u32(doc, "index") {
            Some(n) => n,
            None => return Err(shape_error("index")),
        };
        let inner = match member(doc, "delta") {
            Some(v) => v,
            None => return Err(shape_error("delta")),
        };
        let delta = decode_delta(inner.as_slice())?;
        Ok(Message::ContentBlockDelta(ContentBlockDelta { index, delta }))
    } else if same_text(&tag, "content_block_stop") {
        match get_u32(doc, "index") {
            Some(index) => Ok(Message::ContentBlockStop(ContentBlockStop { index })),
            None => Err(shape_error("index")),
        }
    } else if same_text(&tag, "message_delta") {
        Ok(Message::MessageDelta(decode_message_delta(doc)?))
    } else if same_text(&tag, "message_stop") {
        Ok(Message::MessageStop(MessageStop))
    } else if same_text(&tag, "ping") {
        Ok(Message::Ping(Ping { event_type: None }))
    } else if same_text(&tag, "error") {
        let body = match member(doc, "error") {
            Some(v) => v,
            None => return Err(shape_error("error")),
        };
        let error_type = decode_str(body.as_slice(), "type")?;
        let message = decode_str(body.as_slice(), "message")?;
        Ok(Message::Error(ErrorEvent { error: ErrorBody { error_type, message } }))
    } else {
        Err(shape_error("message type"))
    }
}

} // verus!
