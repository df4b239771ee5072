use claude_agent::control::{ControlRequest, ControlRequestType};
use claude_agent::message::{ContentBlock, Message};
use claude_agent::turn::{
    control_response_frame, plan_control_request, relay_response_frame, route_frame, user_turn_frame, wire_line,
    Inbound, LocalAction, RelayOutcome, TurnAction, TurnEvent, TurnLoop,
};
use claude_agent::ClaudeAgentError;

fn value_of(text: &str) -> serde_json::Value {
    serde_json::from_str(text).unwrap()
}

#[test]
fn result_frame_decodes_to_a_result_message() {
    let frame = br#"{"type":"result","subtype":"success","duration_ms":1000,"duration_api_ms":800,"is_error":false,"num_turns":1,"session_id":"s1"}"#;
    match route_frame(frame) {
        Inbound::Conversation(Ok(Message::Result(m))) => {
            assert_eq!(m.session_id, "s1");
            assert!(!m.is_error);
            assert_eq!(m.duration_ms, 1000);
            assert_eq!(m.duration_api_ms, 800);
            assert_eq!(m.num_turns, 1);
        },
        other => panic!("unexpected {:?}", other),
    }
}

#[test]
fn assistant_blocks_keep_their_order_and_tool_fields() {
    let frame = br#"{"type":"assistant","message":{"model":"m","content":[{"type":"text","text":"Let me check"},{"type":"tool_use","id":"t1","name":"Bash","input":{"command":"ls"}}]}}"#;
    match route_frame(frame) {
        Inbound::Conversation(Ok(Message::Assistant(a))) => {
            assert_eq!(a.content.len(), 2);
            match &a.content[0] {
                ContentBlock::Text(t) => assert_eq!(t.text, "Let me check"),
                other => panic!("unexpected {:?}", other),
            }
            match &a.content[1] {
                ContentBlock::ToolUse(u) => {
                    assert_eq!(u.name, "Bash");
                    assert_eq!(u.id, "t1");
                    let input: serde_json::Value = serde_json::from_slice(&u.input).unwrap();
                    assert_eq!(input["command"], "ls");
                },
                other => panic!("unexpected {:?}", other),
            }
        },
        other => panic!("unexpected {:?}", other),
    }
}

#[test]
fn control_frames_are_never_conversational() {
    let request = br#"{"type":"control_request","request_id":"r1","request":{"subtype":"mcp_message","server_name":"calc","message":{"id":1}}}"#;
    match route_frame(request) {
        Inbound::ControlRequest { request_id, subtype, payload } => {
            assert_eq!(request_id, "r1");
            assert_eq!(subtype, "mcp_message");
            assert!(payload.is_some());
        },
        other => panic!("unexpected {:?}", other),
    }
    let response = br#"{"type":"control_response","response":{"subtype":"success","request_id":"r2","response":{"ok":true}}}"#;
    match route_frame(response) {
        Inbound::ControlResponse(resp) => {
            assert_eq!(resp.request_id, "r2");
            assert!(resp.success);
            assert_eq!(resp.response, Some(response.to_vec()));
        },
        other => panic!("unexpected {:?}", other),
    }
    let init = br#"{"type":"system","subtype":"init","data":{"tools":[]}}"#;
    assert!(matches!(route_frame(init), Inbound::ServerInit(Some(_))));
    match route_frame(br#"{"type":"system","subtype":"init","data":null}"#) {
        Inbound::ServerInit(data) => assert_eq!(data, Some(b"null".to_vec())),
        other => panic!("unexpected {:?}", other),
    }
    assert!(matches!(route_frame(br#"{"type":"system","subtype":"init"}"#), Inbound::ServerInit(None)));
    let other_system = br#"{"type":"system","subtype":"status"}"#;
    assert!(matches!(route_frame(other_system), Inbound::Conversation(Ok(Message::System(_)))));
    let odd = br#"{"type":"control_request"}"#;
    match route_frame(odd) {
        Inbound::ControlRequest { request_id, subtype, payload } => {
            assert_eq!(request_id, "unknown");
            assert_eq!(subtype, "unknown");
            assert!(payload.is_none());
        },
        other => panic!("unexpected {:?}", other),
    }
}

#[test]
fn unshaped_frames_yield_a_parse_error() {
    assert!(matches!(route_frame(br#"{"type":"result","subtype":"x"}"#), Inbound::Conversation(Err(ClaudeAgentError::MessageParse(_)))));
    assert!(matches!(route_frame(br#"{"no_type":1}"#), Inbound::Conversation(Err(ClaudeAgentError::MessageParse(_)))));
    assert!(matches!(route_frame(br#"{"type":"mystery"}"#), Inbound::Conversation(Err(ClaudeAgentError::MessageParse(_)))));
}

#[test]
fn far_end_requests_are_answered_in_band() {
    match plan_control_request("r9".to_string(), "can_use_tool".to_string(), None) {
        LocalAction::Reply { request_id, body } => {
            assert_eq!(request_id, "r9");
            assert_eq!(value_of(&body)["error"], "Unsupported control subtype: can_use_tool");
        },
        other => panic!("unexpected {:?}", other),
    }
    match plan_control_request("r1".to_string(), "set_model".to_string(), None) {
        LocalAction::Reply { body, .. } => assert_eq!(body, "{\"status\":\"not_implemented\"}"),
        other => panic!("unexpected {:?}", other),
    }
    match plan_control_request("r2".to_string(), "mcp_message".to_string(), Some(b"{\"server_name\":\"calc\"}".to_vec())) {
        LocalAction::Reply { body, .. } => assert_eq!(value_of(&body)["error"], "Invalid mcp_message payload"),
        other => panic!("unexpected {:?}", other),
    }
    let payload = b"{\"server_name\":\"calc\",\"message\":{\"method\":\"tools/list\"}}".to_vec();
    match plan_control_request("r3".to_string(), "mcp_message".to_string(), Some(payload)) {
        LocalAction::Relay { request_id, server_name, message } => {
            assert_eq!(request_id, "r3");
            assert_eq!(server_name, "calc");
            let m: serde_json::Value = serde_json::from_slice(&message).unwrap();
            assert_eq!(m["method"], "tools/list");
        },
        other => panic!("unexpected {:?}", other),
    }
}

#[test]
fn outbound_frames_have_their_wire_form() {
    let v = value_of(&user_turn_frame("What is 2+2?"));
    assert_eq!(v["type"], "user");
    assert_eq!(v["message"]["role"], "user");
    assert_eq!(v["message"]["content"][0]["type"], "text");
    assert_eq!(v["message"]["content"][0]["text"], "What is 2+2?");
    let v = value_of(&control_response_frame("r7", "{\"x\":1}"));
    assert_eq!(v["type"], "control_response");
    assert_eq!(v["response"]["subtype"], "success");
    assert_eq!(v["response"]["request_id"], "r7");
    assert_eq!(v["response"]["response"]["x"], 1);
    let v = value_of(&relay_response_frame("r8", RelayOutcome::UnknownServer("calc".to_string())));
    assert_eq!(v["response"]["response"]["error"], "Server not found: calc");
    let v = value_of(&relay_response_frame("r8", RelayOutcome::Answered("[1,2]".to_string())));
    assert_eq!(v["response"]["response"][1], 2);
    assert_eq!(wire_line("{}"), "{}\n");
}

#[test]
fn turn_loop_yields_only_conversation_and_ends_once() {
    let mut turn = TurnLoop::new();
    let req = ControlRequest { request_id: "q1".to_string(), request: ControlRequestType::Interrupt };
    match turn.on_event(TurnEvent::Outgoing(req)) {
        TurnAction::Write(frame) => assert_eq!(value_of(&frame)["request"]["subtype"], "interrupt"),
        other => panic!("unexpected {:?}", other),
    }
    let init = br#"{"type":"system","subtype":"init","data":{"session":"s"}}"#.to_vec();
    assert!(matches!(turn.on_event(TurnEvent::Incoming(init)), TurnAction::Idle));
    assert_eq!(turn.server_info(), Some(br#"{"session":"s"}"#.to_vec()));
    let ask = br#"{"type":"control_request","request_id":"far-1","request":{"subtype":"rewind_files"}}"#.to_vec();
    match turn.on_event(TurnEvent::Incoming(ask)) {
        TurnAction::Write(frame) => {
            let v = value_of(&frame);
            assert_eq!(v["response"]["request_id"], "far-1");
            assert_eq!(v["response"]["response"]["status"], "not_implemented");
        },
        other => panic!("unexpected {:?}", other),
    }
    let answer = br#"{"type":"control_response","response":{"subtype":"success","request_id":"q1"}}"#.to_vec();
    assert!(matches!(turn.on_event(TurnEvent::Incoming(answer)), TurnAction::Resolve(_)));
    let text = br#"{"type":"assistant","message":{"content":[{"type":"text","text":"4"}],"model":"m"}}"#.to_vec();
    assert!(matches!(turn.on_event(TurnEvent::Incoming(text)), TurnAction::Yield(Ok(Message::Assistant(_)))));
    let failure = ClaudeAgentError::JSONDecode("bad".to_string());
    assert!(matches!(turn.on_event(TurnEvent::ReadFailed(failure)), TurnAction::Yield(Err(_))));
    assert!(!turn.closed());
    assert!(matches!(turn.on_event(TurnEvent::SourceEnded), TurnAction::Finish(None)));
    assert!(turn.closed());
    let late = br#"{"type":"assistant","message":{}}"#.to_vec();
    assert!(matches!(turn.on_event(TurnEvent::Incoming(late)), TurnAction::Idle));
}

#[test]
fn failed_write_ends_the_turn_with_its_error() {
    let mut turn = TurnLoop::new();
    let e = ClaudeAgentError::Transport("Write failed: broken pipe".to_string());
    match turn.on_event(TurnEvent::WriteFailed(e)) {
        TurnAction::Finish(Some(ClaudeAgentError::Transport(d))) => assert_eq!(d, "Write failed: broken pipe"),
        other => panic!("unexpected {:?}", other),
    }
    assert!(turn.closed());
}
