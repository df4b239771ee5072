//! The turn multiplexer: what each incoming frame means, how the far end's
//! control requests are answered, and the frames the local side writes.
//!
//! The loop that waits on the transport and on the outgoing control queue
//! lives with the caller; every decision it takes is made here, by
//! [`TurnLoop::on_event`], from the loop's state and the event that woke it.

use vstd::prelude::*;
use vstd::string::StringExecFns;
use crate::control::{encode_request, request_frame, ControlRequest, ControlResponse};
use crate::error::ClaudeAgentError;
use crate::fields::{get_opt_str, get_str, opt_str_field, same_text, str_field};
use crate::json::{json_member, json_quoted, member, opt_bytes, opt_text, quote};
use crate::message::{decode_message, message_of, message_ok, tag_of, Message};

verus! {

/// What an incoming frame is.
#[derive(Debug)]
pub enum Inbound {
    /// The far end asks the local side to act.
    ControlRequest { request_id: String, subtype: String, payload: Option<Vec<u8>> },
    /// The far end answers one of the local side's control requests.
    ControlResponse(ControlResponse),
    /// Session initialisation metadata: captured, never yielded.
    ServerInit(Option<Vec<u8>>),
    /// A conversational frame, decoded, or the error met decoding it.
    Conversation(Result<Message, ClaudeAgentError>),
}

/// A string field with a fallback for when it is absent or not a string.
pub open spec fn str_or(doc: Seq<u8>, key: Seq<char>, fallback: Seq<char>) -> Seq<char> {
    match str_field(doc, key) {
        Some(s) => s,
        None => fallback,
    }
}

/// The request id that a control response answers: the one inside its
/// `response` object, else one at the top level, else empty.
pub open spec fn response_id_of(frame: Seq<u8>) -> Seq<char> {
    match json_member(frame, "response"@) {
        Some(body) => match str_field(body, "request_id"@) {
            Some(id) => id,
            None => str_or(frame, "request_id"@, Seq::empty()),
        },
        None => str_or(frame, "request_id"@, Seq::empty()),
    }
}

/// Whether `resp` is what the control response frame `frame` carries.
pub open spec fn response_of(frame: Seq<u8>, resp: ControlResponse) -> bool {
    &&& resp.request_id@ == response_id_of(frame)
    &&& opt_bytes(resp.response) == Some(frame)
    &&& resp.success == (json_member(frame, "response"@) matches Some(body) && str_field(body, "subtype"@)
        == Some("success"@))
    &&& opt_text(resp.error) == match json_member(frame, "response"@) {
        Some(body) => match opt_str_field(body, "error"@) {
            Some(e) => e,
            None => None,
        },
        None => None,
    }
}

/// Whether `r` is what the frame `frame` means.
pub open spec fn route_of(frame: Seq<u8>, r: Inbound) -> bool {
    let tag = tag_of(frame);
    if tag == Some("control_request"@) {
        &&& r matches Inbound::ControlRequest { request_id, subtype, payload }
        &&& request_id@ == str_or(frame, "request_id"@, "unknown"@)
        &&& opt_bytes(payload) == json_member(frame, "request"@)
        &&& subtype@ == match json_member(frame, "request"@) {
            Some(p) => str_or(p, "subtype"@, "unknown"@),
            None => "unknown"@,
        }
    } else if tag == Some("control_response"@) {
        r matches Inbound::ControlResponse(resp) && response_of(frame, resp)
    } else if tag == Some("system"@) && str_field(frame, "subtype"@) == Some("init"@) {
        r matches Inbound::ServerInit(data) && opt_bytes(data) == json_member(frame, "data"@)
    } else {
        &&& r matches Inbound::Conversation(res)
        &&& match res {
            Ok(m) => message_of(frame, m),
            Err(e) => !message_ok(frame) && e is MessageParse,
        }
    }
}

fn str_or_default(doc: &[u8], key: &str, fallback: &str) -> (r: String)
    ensures
        r@ == str_or(doc@, key@, fallback@),
{
    match get_str(doc, key) {
        Some(s) => s,
        None => String::from_str(fallback),
    }
}

fn top_level_id(doc: &[u8]) -> (r: String)
    ensures
        r@ == str_or(doc@, "request_id"@, Seq::empty()),
{
    match get_str(doc, "request_id") {
        Some(s) => s,
        None => String::new(),
    }
}

/// Classifies one incoming frame. Control requests and control responses
/// are never conversational; neither is the session's `system`/`init` frame.
pub fn route_frame(frame: &[u8]) -> (r: Inbound)
    ensures
        route_of(frame@, r),
        r is Conversation ==> tag_of(frame@) != Some("control_request"@) && tag_of(frame@) != Some("control_response"@),
{
    let tag = get_str(frame, "type");
    let is_request = match &tag {
        Some(t) => same_text(t, "control_request"),
        None => false,
    };
    let is_response = match &tag {
        Some(t) => same_text(t, "control_response"),
        None => false,
    };
    let is_system = match &tag {
        Some(t) => same_text(t, "system"),
        None => false,
    };
    if is_request {
        let request_id = str_or_default(frame, "request_id", "unknown");
        let payload = member(frame, "request");
        let subtype = match &payload {
            Some(p) => str_or_default(p.as_slice(), "subtype", "unknown"),
            None => String::from_str("unknown"),
        };
        Inbound::ControlRequest { request_id, subtype, payload }
    } else if is_response {
        let body = member(frame, "response");
        let (request_id, success, error) = match &body {
            Some(b) => {
                let id = match get_str(b.as_slice(), "request_id") {
                    Some(id) => id,
                    None => top_level_id(frame),
                };
                let success = match get_str(b.as_slice(), "subtype") {
                    Some(s) => same_text(&s, "success"),
                    None => false,
                };
                let error = match get_opt_str(b.as_slice(), "error") {
                    Some(e) => e,
                    None => None,
                };
                (id, success, error)
            },
            None => (top_level_id(frame), false, None),
        };
        let mut whole: Vec<u8> = Vec::new();
        let mut i: usize = 0;
        while i < frame.len()
            invariant
                0 <= i <= frame@.len(),
                whole@ == frame@.subrange(0, i as int),
            decreases frame@.len() - i,
        {
            whole.push(frame[i]);
            proof {
                assert(whole@ =~= frame@.subrange(0, i + 1));
            }
            i = i + 1;
        }
        assert(whole@ =~= frame@);
        let resp = ControlResponse { request_id, success, response: Some(whole), error };
        Inbound::ControlResponse(resp)
    } else if is_system && match get_str(frame, "subtype") {
        Some(s) => same_text(&s, "init"),
        None => false,
    } {
        Inbound::ServerInit(member(frame, "data"))
    } else {
        Inbound::Conversation(decode_message(frame))
    }
}

/// The body of an error answer: `{"error":<message>}`.
pub open spec fn error_body(message: Seq<char>) -> Seq<char> {
    "{\"error\":"@ + json_quoted(message) + "}"@
}

/// The body of the answer to a control subtype that is known but not served.
pub open spec fn not_implemented_body() -> Seq<char> {
    "{\"status\":\"not_implemented\"}"@
}

/// The frame that answers the far end's control request `request_id`.
pub open spec fn response_frame(request_id: Seq<char>, body: Seq<char>) -> Seq<char> {
    "{\"type\":\"control_response\",\"response\":{\"subtype\":\"success\",\"request_id\":"@ + json_quoted(request_id)
        + ",\"response\":"@ + body + "}}"@
}

/// The frame that opens a turn with the user's prompt.
pub open spec fn user_turn(prompt: Seq<char>) -> Seq<char> {
    "{\"type\":\"user\",\"message\":{\"role\":\"user\",\"content\":[{\"type\":\"text\",\"text\":"@ + json_quoted(prompt)
        + "}]}}"@
}

/// How the local side serves one of the far end's control requests.
#[derive(Debug, Clone)]
pub enum LocalAction {
    /// Hand `message` (JSON text) to the tool server `server_name`, then
    /// answer with what it returns.
    Relay { request_id: String, server_name: String, message: Vec<u8> },
    /// Answer at once with `body` (JSON text).
    Reply { request_id: String, body: String },
}

/// The control subtypes that are known but not served locally.
pub open spec fn is_unserved_subtype(subtype: Seq<char>) -> bool {
    subtype == "initialize"@ || subtype == "set_permission_mode"@ || subtype == "set_model"@ || subtype
        == "rewind_files"@
}

/// Whether `a` is how the control request (`request_id`, `subtype`,
/// `payload`) is served.
pub open spec fn plan_of(request_id: Seq<char>, subtype: Seq<char>, payload: Option<Seq<u8>>, a: LocalAction) -> bool {
    if subtype == "mcp_message"@ {
        let name = match payload {
            Some(p) => str_field(p, "server_name"@),
            None => None,
        };
        let message = match payload {
            Some(p) => json_member(p, "message"@),
            None => None,
        };
        if name.is_some() && message.is_some() {
            a matches LocalAction::Relay { request_id: id, server_name, message: m } && id@ == request_id
                && Some(server_name@) == name && Some(m@) == message
        } else {
            a matches LocalAction::Reply { request_id: id, body } && id@ == request_id && body@ == error_body(
                "Invalid mcp_message payload"@,
            )
        }
    } else if is_unserved_subtype(subtype) {
        a matches LocalAction::Reply { request_id: id, body } && id@ == request_id && body@ == not_implemented_body()
    } else {
        a matches LocalAction::Reply { request_id: id, body } && id@ == request_id && body@ == error_body(
            "Unsupported control subtype: "@ + subtype,
        )
    }
}

fn error_text(message: &str) -> (r: String)
    ensures
        r@ == error_body(message@),
{
    let mut body = String::from_str("{\"error\":");
    body.append(quote(message).as_str());
    body.append("}");
    body
}

/// Decides how to serve a control request from the far end. Subtypes that
/// are not recognised get a structured "unsupported" answer, never a failure.
pub fn plan_control_request(request_id: String, subtype: String, payload: Option<Vec<u8>>) -> (r: LocalAction)
    ensures
        plan_of(request_id@, subtype@, opt_bytes(payload), r),
{
    if same_text(&subtype, "mcp_message") {
        let (name, message) = match &payload {
            Some(p) => (get_str(p.as_slice(), "server_name"), member(p.as_slice(), "message")),
            None => (None, None),
        };
        match (name, message) {
            (Some(server_name), Some(message)) => LocalAction::Relay { request_id, server_name, message },
            _ => LocalAction::Reply { request_id, body: error_text("Invalid mcp_message payload") },
        }
    } else if same_text(&subtype, "initialize") || same_text(&subtype, "set_permission_mode") || same_text(
        &subtype,
        "set_model",
    ) || same_text(&subtype, "rewind_files") {
        LocalAction::Reply { request_id, body: String::from_str("{\"status\":\"not_implemented\"}") }
    } else {
        let mut message = String::from_str("Unsupported control subtype: ");
        message.append(subtype.as_str());
        LocalAction::Reply { request_id, body: error_text(message.as_str()) }
    }
}

/// The frame answering the far end's control request `request_id` with
/// `body` (JSON text).
pub fn control_response_frame(request_id: &str, body: &str) -> (r: String)
    ensures
        r@ == response_frame(request_id@, body@),
{
    let mut frame = String::from_str(
        "{\"type\":\"control_response\",\"response\":{\"subtype\":\"success\",\"request_id\":",
    );
    frame.append(quote(request_id).as_str());
    frame.append(",\"response\":");
    frame.append(body);
    frame.append("}}");
    frame
}

/// The frame that opens a turn with `prompt`.
pub fn user_turn_frame(prompt: &str) -> (r: String)
    ensures
        r@ == user_turn(prompt@),
{
    let mut frame = String::from_str(
        "{\"type\":\"user\",\"message\":{\"role\":\"user\",\"content\":[{\"type\":\"text\",\"text\":",
    );
    frame.append(quote(prompt).as_str());
    frame.append("}]}}");
    frame
}

/// A line of the wire: `data` and a trailing newline.
pub fn wire_line(data: &str) -> (r: String)
    ensures
        r@ == data@ + "\n"@,
{
    let mut line = String::from_str(data);
    line.append("\n");
    line
}

/// What came of relaying a message to a tool server.
#[derive(Debug, Clone)]
pub enum RelayOutcome {
    /// The server answered with this JSON text.
    Answered(String),
    /// The server failed with this message.
    Failed(String),
    /// No server of that name is registered.
    UnknownServer(String),
}

/// The body answering a relayed request, given what came of the relay.
pub open spec fn relay_body(outcome: RelayOutcome) -> Seq<char> {
    match outcome {
        RelayOutcome::Answered(text) => text@,
        RelayOutcome::Failed(message) => error_body(message@),
        RelayOutcome::UnknownServer(name) => error_body("Server not found: "@ + name@),
    }
}

/// The frame answering a relayed control request, given what came of it.
pub fn relay_response_frame(request_id: &str, outcome: RelayOutcome) -> (r: String)
    ensures
        r@ == response_frame(request_id@, relay_body(outcome)),
{
    let body = match &outcome {
        RelayOutcome::Answered(text) => text.clone(),
        RelayOutcome::Failed(message) => error_text(message.as_str()),
        RelayOutcome::UnknownServer(name) => {
            let mut message = String::from_str("Server not found: ");
            message.append(name.as_str());
            error_text(message.as_str())
        },
    };
    control_response_frame(request_id, body.as_str())
}

/// What woke the turn loop.
#[derive(Debug)]
pub enum TurnEvent {
    /// The local side queued a control request.
    Outgoing(ControlRequest),
    /// The transport delivered a frame.
    Incoming(Vec<u8>),
    /// The transport delivered an error in place of a frame.
    ReadFailed(ClaudeAgentError),
    /// The transport's frame source ended.
    SourceEnded,
    /// Writing to the transport failed.
    WriteFailed(ClaudeAgentError),
}

/// What the turn loop must do next.
#[derive(Debug)]
pub enum TurnAction {
    /// Write this frame to the transport.
    Write(String),
    /// Relay a message to a tool server, then write
    /// `relay_response_frame(request_id, outcome)`.
    Relay { request_id: String, server_name: String, message: Vec<u8> },
    /// Complete the local caller waiting on this response.
    Resolve(ControlResponse),
    /// Hand this element to the caller as the turn's next output.
    Yield(Result<Message, ClaudeAgentError>),
    /// Nothing; wait for the next event.
    Idle,
    /// End the turn's output, after the error if there is one.
    Finish(Option<ClaudeAgentError>),
}

/// The state of one turn: whether it has ended, and the session
/// initialisation metadata seen so far.
pub struct TurnLoop {
    closed: bool,
    server_info: Option<Vec<u8>>,
}

/// Whether `r` is the action that serves the routed frame `rt`, and `info`
/// the metadata kept afterwards, given `before`.
pub open spec fn serve_of(rt: Inbound, r: TurnAction, before: Option<Seq<u8>>, info: Option<Seq<u8>>) -> bool {
    match rt {
        Inbound::ControlRequest { request_id, subtype, payload } => info == before && exists|a: LocalAction| {
            &&& plan_of(request_id@, subtype@, opt_bytes(payload), a)
            &&& match a {
                LocalAction::Relay { request_id: id, server_name, message } => r == (TurnAction::Relay {
                    request_id: id,
                    server_name,
                    message,
                }),
                LocalAction::Reply { request_id: id, body } => r matches TurnAction::Write(f) && f@ == response_frame(
                    id@,
                    body@,
                ),
            }
        },
        Inbound::ControlResponse(resp) => info == before && r == TurnAction::Resolve(resp),
        Inbound::ServerInit(data) => r is Idle && info == opt_bytes(data),
        Inbound::Conversation(res) => info == before && r == TurnAction::Yield(res),
    }
}

impl TurnLoop {
    /// Whether the turn has ended.
    pub closed spec fn is_closed(&self) -> bool {
        self.closed
    }

    /// The session initialisation metadata seen so far.
    pub closed spec fn info(&self) -> Option<Seq<u8>> {
        opt_bytes(self.server_info)
    }

    /// A turn that has just begun.
    pub fn new() -> (r: Self)
        ensures
            !r.is_closed(),
            r.info().is_none(),
    {
        TurnLoop { closed: false, server_info: None }
    }

    /// Whether the turn has ended.
    pub fn closed(&self) -> (r: bool)
        ensures
            r == self.is_closed(),
    {
        self.closed
    }

    /// The session initialisation metadata seen so far, as JSON text.
    pub fn server_info(&self) -> (r: Option<Vec<u8>>)
        ensures
            opt_bytes(r) == self.info(),
    {
        self.server_info.clone()
    }

    /// Decides what to do about one event. After the turn has ended every
    /// event is ignored. A failed write and the end of the source end the
    /// turn; everything else leaves it running.
    pub fn on_event(&mut self, event: TurnEvent) -> (r: TurnAction)
        ensures
            old(self).is_closed() ==> r is Idle && *final(self) == *old(self),
            !old(self).is_closed() ==> match event {
                TurnEvent::Outgoing(req) => {
                    &&& r matches TurnAction::Write(f) && f@ == request_frame(req)
                    &&& *final(self) == *old(self)
                },
                TurnEvent::Incoming(frame) => {
                    &&& !final(self).is_closed()
                    &&& exists|rt: Inbound| route_of(frame@, rt) && serve_of(rt, r, old(self).info(), final(self).info())
                },
                TurnEvent::ReadFailed(e) => r == TurnAction::Yield(Err(e)) && *final(self) == *old(self),
                TurnEvent::SourceEnded => r == TurnAction::Finish(None) && final(self).is_closed()
                    && final(self).info() == old(self).info(),
                TurnEvent::WriteFailed(e) => r == TurnAction::Finish(Some(e)) && final(self).is_closed()
                    && final(self).info() == old(self).info(),
            },
    {
        if self.closed {
            return TurnAction::Idle;
        }
        match event {
            TurnEvent::Outgoing(req) => TurnAction::Write(encode_request(&req)),
            TurnEvent::Incoming(frame) => {
                let rt = route_frame(frame.as_slice());
                let ghost rt_view = rt;
                let ghost before = self.info();
                let action = match rt {
                    Inbound::ControlRequest { request_id, subtype, payload } => {
                        let a = plan_control_request(request_id, subtype, payload);
                        match a {
                            LocalAction::Relay { request_id, server_name, message } => TurnAction::Relay {
                                request_id,
                                server_name,
                                message,
                            },
                            LocalAction::Reply { request_id, body } => TurnAction::Write(
                                control_response_frame(request_id.as_str(), body.as_str()),
                            ),
                        }
                    },
                    Inbound::ControlResponse(resp) => TurnAction::Resolve(resp),
                    Inbound::ServerInit(data) => {
                        self.server_info = data;
                        TurnAction::Idle
                    },
                    Inbound::Conversation(res) => TurnAction::Yield(res),
                };
                assert(serve_of(rt_view, action, before, self.info()));
                action
            },
            TurnEvent::ReadFailed(e) => TurnAction::Yield(Err(e)),
            TurnEvent::SourceEnded => {
                self.closed = true;
                TurnAction::Finish(None)
            },
            TurnEvent::WriteFailed(e) => {
                self.closed = true;
                TurnAction::Finish(Some(e))
            },
        }
    }
}

/// No cross-talk: a frame tagged `control_request` or `control_response`
/// is never routed as conversation, and whatever the turn loop does with it
/// never hands an element to the caller.
pub proof fn lemma_no_cross_talk(
    frame: Seq<u8>,
    rt: Inbound,
    r: TurnAction,
    before: Option<Seq<u8>>,
    info: Option<Seq<u8>>,
)
    requires
        tag_of(frame) == Some("control_request"@) || tag_of(frame) == Some("control_response"@),
        route_of(frame, rt),
        serve_of(rt, r, before, info),
    ensures
        !(rt is Conversation),
        !(r is Yield),
{
}

} // verus!
