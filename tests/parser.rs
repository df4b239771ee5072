use claude_agent::message::{decode_message, ContentBlock, Message, MessageContent, ToolResultContent};
use claude_agent::parser::{get_message_type, is_result_message, parse_line};

fn value_of(bytes: &[u8]) -> serde_json::Value {
    serde_json::from_slice(bytes).unwrap()
}

#[test]
fn test_parse_line_valid() {
    let json = r#"{"type": "assistant", "content": "Hello"}"#;
    let result = parse_line(json);
    assert!(result.is_ok());
}

#[test]
fn test_parse_line_empty() {
    let result = parse_line("");
    assert!(result.is_err());
}

#[test]
fn test_is_result_message() {
    let result_msg = br#"{"type": "result"}"#;
    let other_msg = br#"{"type": "assistant"}"#;

    assert!(is_result_message(result_msg));
    assert!(!is_result_message(other_msg));
}

#[test]
fn parse_line_trims_and_rejects_garbage() {
    assert_eq!(parse_line("  {\"a\":1}\n").unwrap(), b"{\"a\":1}".to_vec());
    assert!(parse_line("   \t").is_err());
    assert!(parse_line("{\"a\":").is_err());
    assert_eq!(get_message_type(br#"{"type":"system"}"#), Some("system".to_string()));
    assert_eq!(get_message_type(br#"{"kind":"system"}"#), None);
}

#[test]
fn test_parse_valid_user_message() {
    let data = br#"{"type": "user", "message": {"content": [{"type": "text", "text": "Hello"}]}}"#;

    let message = decode_message(data).unwrap();

    if let Message::User(user_msg) = message {
        assert!(matches!(user_msg.content, MessageContent::Blocks(_)));
        if let MessageContent::Blocks(blocks) = user_msg.content {
            assert_eq!(blocks.len(), 1);
            if let ContentBlock::Text(text_block) = &blocks[0] {
                assert_eq!(text_block.text, "Hello");
            } else {
                panic!("Expected TextBlock");
            }
        }
    } else {
        panic!("Expected UserMessage");
    }
}

#[test]
fn test_parse_user_message_with_uuid() {
    let data = br#"{"type": "user", "uuid": "msg-abc123-def456", "message": {"content": [{"type": "text", "text": "Hello"}]}}"#;

    let message = decode_message(data).unwrap();

    if let Message::User(user_msg) = message {
        assert_eq!(user_msg.uuid.unwrap(), "msg-abc123-def456");
    } else {
        panic!("Expected UserMessage");
    }
}

#[test]
fn test_parse_user_message_with_tool_use() {
    let data = br#"{
        "type": "user",
        "message": {
            "content": [
                {"type": "text", "text": "Let me read this file"},
                {"type": "tool_use", "id": "tool_456", "name": "Read", "input": {"file_path": "/example.txt"}}
            ]
        }
    }"#;

    let message = decode_message(data).unwrap();

    if let Message::User(user_msg) = message {
        if let MessageContent::Blocks(blocks) = user_msg.content {
            assert_eq!(blocks.len(), 2);
            assert!(matches!(blocks[0], ContentBlock::Text(_)));
            if let ContentBlock::ToolUse(tool_use) = &blocks[1] {
                assert_eq!(tool_use.id, "tool_456");
                assert_eq!(tool_use.name, "Read");
                assert_eq!(value_of(&tool_use.input)["file_path"], "/example.txt");
            } else {
                panic!("Expected ToolUseBlock");
            }
        }
    } else {
        panic!("Expected UserMessage");
    }
}

#[test]
fn test_parse_user_message_with_tool_result() {
    let data = br#"{
        "type": "user",
        "message": {
            "content": [
                {"type": "tool_result", "tool_use_id": "tool_789", "content": "File contents here"}
            ]
        }
    }"#;

    let message = decode_message(data).unwrap();

    if let Message::User(user_msg) = message {
        if let MessageContent::Blocks(blocks) = user_msg.content {
            assert_eq!(blocks.len(), 1);
            if let ContentBlock::ToolResult(result) = &blocks[0] {
                assert_eq!(result.tool_use_id, "tool_789");
                if let Some(ToolResultContent::Text(content)) = &result.content {
                    assert_eq!(content, "File contents here");
                } else {
                    panic!("Expected text content");
                }
            } else {
                panic!("Expected ToolResultBlock");
            }
        }
    } else {
        panic!("Expected UserMessage");
    }
}

#[test]
fn test_parse_user_message_inside_subagent() {
    let data = br#"{
        "type": "user",
        "message": {"content": [{"type": "text", "text": "Hello"}]},
        "parent_tool_use_id": "toolu_01Xrwd5Y13sEHtzScxR77So8"
    }"#;

    let message = decode_message(data).unwrap();

    if let Message::User(user_msg) = message {
        assert_eq!(user_msg.parent_tool_use_id.unwrap(), "toolu_01Xrwd5Y13sEHtzScxR77So8");
    } else {
        panic!("Expected UserMessage");
    }
}

#[test]
fn test_parse_valid_assistant_message() {
    let data = br#"{
        "type": "assistant",
        "message": {
            "content": [
                {"type": "text", "text": "Hello"},
                {"type": "tool_use", "id": "tool_123", "name": "Read", "input": {"file_path": "/test.txt"}}
            ],
            "model": "opus-4-1-20250805"
        }
    }"#;

    let message = decode_message(data).unwrap();

    if let Message::Assistant(assistant_msg) = message {
        assert_eq!(assistant_msg.content.len(), 2);
        assert!(matches!(assistant_msg.content[0], ContentBlock::Text(_)));
        assert!(matches!(assistant_msg.content[1], ContentBlock::ToolUse(_)));
        assert_eq!(assistant_msg.model, "opus-4-1-20250805");
    } else {
        panic!("Expected AssistantMessage");
    }
}

#[test]
fn test_parse_assistant_message_with_thinking() {
    let data = br#"{
        "type": "assistant",
        "message": {
            "content": [
                {"type": "thinking", "thinking": "I'm thinking about the answer...", "signature": "sig-123"},
                {"type": "text", "text": "Here's my response"}
            ],
            "model": "opus-4-1-20250805"
        }
    }"#;

    let message = decode_message(data).unwrap();

    if let Message::Assistant(assistant_msg) = message {
        assert_eq!(assistant_msg.content.len(), 2);
        if let ContentBlock::Thinking(thinking) = &assistant_msg.content[0] {
            assert_eq!(thinking.thinking, "I'm thinking about the answer...");
            assert_eq!(thinking.signature, "sig-123");
        } else {
            panic!("Expected ThinkingBlock");
        }
    } else {
        panic!("Expected AssistantMessage");
    }
}

#[test]
fn test_parse_valid_system_message() {
    let data = br#"{"type": "system", "subtype": "start"}"#;

    let message = decode_message(data).unwrap();

    if let Message::System(system_msg) = message {
        assert_eq!(system_msg.subtype, "start");
        assert!(system_msg.data.is_none());
    } else {
        panic!("Expected SystemMessage");
    }
}

#[test]
fn test_parse_valid_result_message() {
    let data = br#"{
        "type": "result",
        "subtype": "success",
        "duration_ms": 1000,
        "duration_api_ms": 500,
        "is_error": false,
        "num_turns": 2,
        "session_id": "session_123"
    }"#;

    let message = decode_message(data).unwrap();

    if let Message::Result(result_msg) = message {
        assert_eq!(result_msg.subtype, "success");
        assert_eq!(result_msg.duration_ms, 1000);
        assert!(!result_msg.is_error);
    } else {
        panic!("Expected ResultMessage");
    }
}

#[test]
fn null_and_wrongly_typed_fields() {
    match decode_message(br#"{"type":"system","subtype":"s","data":null}"#).unwrap() {
        Message::System(m) => assert!(m.data.is_none()),
        _ => panic!("Expected SystemMessage"),
    }
    match decode_message(br#"{"type":"user","uuid":null,"message":{"content":"hi"}}"#).unwrap() {
        Message::User(u) => {
            assert!(u.uuid.is_none());
            assert!(matches!(u.content, MessageContent::Text(ref t) if t == "hi"));
        },
        _ => panic!("Expected UserMessage"),
    }
    assert!(decode_message(br#"{"type":"user","uuid":5,"message":{"content":"hi"}}"#).is_err());
    assert!(decode_message(br#"{"type":"result","subtype":"s","duration_ms":1,"duration_api_ms":1,"is_error":false,"num_turns":4294967296,"session_id":"x"}"#).is_err());
}

#[test]
fn streaming_events_decode_by_tag() {
    match decode_message(br#"{"type":"content_block_delta","index":2,"delta":{"type":"text_delta","text":"ab"}}"#).unwrap() {
        Message::ContentBlockDelta(d) => {
            assert_eq!(d.index, 2);
            assert!(matches!(d.delta, claude_agent::message::Delta::TextDelta { ref text } if text == "ab"));
        },
        _ => panic!("Expected ContentBlockDelta"),
    }
    match decode_message(br#"{"type":"message_delta","delta":{"stop_reason":"end_turn"},"usage":{"output_tokens":7}}"#).unwrap() {
        Message::MessageDelta(d) => {
            assert_eq!(d.delta.stop_reason, Some("end_turn".to_string()));
            assert!(d.delta.stop_sequence.is_none());
            let usage = d.usage.unwrap();
            assert_eq!(usage.output_tokens, 7);
            assert!(usage.input_tokens.is_none());
        },
        _ => panic!("Expected MessageDelta"),
    }
    assert!(matches!(decode_message(br#"{"type":"message_stop"}"#).unwrap(), Message::MessageStop(_)));
    assert!(matches!(decode_message(br#"{"type":"ping"}"#).unwrap(), Message::Ping(ref p) if p.event_type.is_none()));
    match decode_message(br#"{"type":"error","error":{"type":"overloaded","message":"busy"}}"#).unwrap() {
        Message::Error(e) => {
            assert_eq!(e.error.error_type, "overloaded");
            assert_eq!(e.error.message, "busy");
        },
        _ => panic!("Expected ErrorEvent"),
    }
    match decode_message(br#"{"type":"assistant","error":"rate_limit"}"#).unwrap() {
        Message::Assistant(a) => {
            assert!(a.content.is_empty());
            assert_eq!(a.model, "");
            assert_eq!(a.error, Some(claude_agent::message::AssistantMessageError::RateLimit));
        },
        _ => panic!("Expected AssistantMessage"),
    }
    assert!(decode_message(br#"{"type":"assistant","error":"sleepy"}"#).is_err());
    match decode_message(br#"{"type":"stream_event","uuid":"u","session_id":"s","event":{"k":1}}"#).unwrap() {
        Message::StreamEvent(e) => assert_eq!(e.event, b"{\"k\":1}".to_vec()),
        _ => panic!("Expected StreamEvent"),
    }
}
