use claude_agent::message::{
    AssistantMessage, ContentBlock, MessageContent, ResultMessage, TextBlock, ThinkingBlock, ToolResultBlock,
    ToolResultContent, ToolUseBlock, UserMessage,
};

#[test]
fn test_user_message_creation() {
    let msg = UserMessage {
        content: MessageContent::Text("Hello, assistant!".to_string()),
        uuid: None,
        parent_tool_use_id: None,
    };

    match msg.content {
        MessageContent::Text(text) => assert_eq!(text, "Hello, assistant!"),
        _ => panic!("Expected text content"),
    }
}

#[test]
fn test_assistant_message_with_text() {
    let text_block = ContentBlock::Text(TextBlock { text: "Hello, human!".to_string() });

    let msg = AssistantMessage {
        content: vec![text_block],
        model: "opus-4-1-20250805".to_string(),
        parent_tool_use_id: None,
        error: None,
    };

    assert_eq!(msg.content.len(), 1);
    if let ContentBlock::Text(block) = &msg.content[0] {
        assert_eq!(block.text, "Hello, human!");
    } else {
        panic!("Expected text block");
    }
}

#[test]
fn test_assistant_message_with_thinking() {
    let thinking_block = ContentBlock::Thinking(ThinkingBlock {
        thinking: "I'm thinking...".to_string(),
        signature: "sig-123".to_string(),
    });

    let msg = AssistantMessage {
        content: vec![thinking_block],
        model: "opus-4-1-20250805".to_string(),
        parent_tool_use_id: None,
        error: None,
    };

    assert_eq!(msg.content.len(), 1);
    if let ContentBlock::Thinking(block) = &msg.content[0] {
        assert_eq!(block.thinking, "I'm thinking...");
        assert_eq!(block.signature, "sig-123");
    } else {
        panic!("Expected thinking block");
    }
}

#[test]
fn test_tool_use_block() {
    let mut input = serde_json::Map::new();
    input.insert("file_path".to_string(), serde_json::Value::String("/test.txt".to_string()));

    let block = ToolUseBlock {
        id: "tool-123".to_string(),
        name: "Read".to_string(),
        input: serde_json::to_vec(&serde_json::Value::Object(input)).unwrap(),
    };

    assert_eq!(block.id, "tool-123");
    assert_eq!(block.name, "Read");
    let input: serde_json::Value = serde_json::from_slice(&block.input).unwrap();
    assert_eq!(input["file_path"], "/test.txt");
}

#[test]
fn test_tool_result_block() {
    let block = ToolResultBlock {
        tool_use_id: "tool-123".to_string(),
        content: Some(ToolResultContent::Text("File contents here".to_string())),
        is_error: Some(false),
    };

    assert_eq!(block.tool_use_id, "tool-123");
    if let Some(ToolResultContent::Text(content)) = &block.content {
        assert_eq!(content, "File contents here");
    } else {
        panic!("Expected text content");
    }
    assert_eq!(block.is_error, Some(false));
}

#[test]
fn test_result_message() {
    let msg = ResultMessage {
        subtype: "success".to_string(),
        duration_ms: 1500,
        duration_api_ms: 1200,
        is_error: false,
        num_turns: 1,
        session_id: "session-123".to_string(),
        total_cost_usd: Some(b"0.01".to_vec()),
        usage: None,
        result: None,
        structured_output: None,
    };

    assert_eq!(msg.subtype, "success");
    assert_eq!(msg.total_cost_usd, Some(b"0.01".to_vec()));
    assert_eq!(msg.session_id, "session-123");
}
