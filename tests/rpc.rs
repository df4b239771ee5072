use claude_agent::rpc::{
    call_reply, plan_rpc, plan_stdio_rpc, rpc_answer, rpc_request, tools_list_reply, tools_result, RpcAnswer, RpcStep,
};
use claude_agent::ClaudeAgentError;

fn value_of(text: &str) -> serde_json::Value {
    serde_json::from_str(text).unwrap()
}

fn reply_of(step: RpcStep) -> serde_json::Value {
    match step {
        RpcStep::Reply(text) => value_of(&text),
        other => panic!("expected an immediate reply, got {:?}", other),
    }
}

#[test]
fn initialize_names_the_server() {
    let v = reply_of(plan_rpc(br#"{"jsonrpc":"2.0","id":1,"method":"initialize"}"#, "calc"));
    assert_eq!(v["id"], 1);
    assert_eq!(v["result"]["serverInfo"]["name"], "calc");
    assert_eq!(v["result"]["protocolVersion"], "2024-11-05");
}

#[test]
fn tool_calls_carry_name_and_arguments() {
    match plan_rpc(br#"{"id":"a","method":"tools/call","params":{"name":"add","arguments":{"x":1,"y":2}}}"#, "calc") {
        RpcStep::CallTool { id, name, arguments } => {
            assert_eq!(id, "\"a\"");
            assert_eq!(name, "add");
            assert_eq!(value_of(&arguments)["y"], 2);
        },
        other => panic!("unexpected {:?}", other),
    }
    match plan_rpc(br#"{"id":2,"method":"tools/call","params":{"name":"noop"}}"#, "calc") {
        RpcStep::CallTool { arguments, .. } => assert_eq!(arguments, "{}"),
        other => panic!("unexpected {:?}", other),
    }
    let v = reply_of(plan_rpc(br#"{"id":3,"method":"tools/call"}"#, "calc"));
    assert_eq!(v["error"]["code"], -32602);
    assert_eq!(v["error"]["message"], "Missing params");
    let v = reply_of(plan_rpc(br#"{"id":4,"method":"tools/call","params":{}}"#, "calc"));
    assert_eq!(v["error"]["message"], "Missing tool name");
}

#[test]
fn other_methods_are_listed_notified_or_refused() {
    assert!(matches!(plan_rpc(br#"{"id":5,"method":"tools/list"}"#, "s"), RpcStep::ListTools { ref id } if id == "5"));
    let v = reply_of(plan_rpc(br#"{"method":"notifications/initialized"}"#, "s"));
    assert!(v.get("id").is_none());
    let v = reply_of(plan_rpc(br#"{"id":6,"method":"resources/list"}"#, "s"));
    assert_eq!(v["error"]["code"], -32601);
    assert_eq!(v["error"]["message"], "Method not found: resources/list");
    let v = reply_of(plan_rpc(br#"{"params":{}}"#, "s"));
    assert!(v["id"].is_null());
}

#[test]
fn replies_wrap_results_and_failures() {
    let v = value_of(&tools_list_reply("7", "[{\"name\":\"add\"}]"));
    assert_eq!(v["result"]["tools"][0]["name"], "add");
    let v = value_of(&call_reply("8", Ok("{\"content\":[]}".to_string())));
    assert_eq!(v["id"], 8);
    assert!(v["result"]["content"].is_array());
    let v = value_of(&call_reply("9", Err("boom".to_string())));
    assert_eq!(v["error"]["code"], -32000);
    assert_eq!(v["error"]["message"], "boom");
}

#[test]
fn requests_and_answers_to_a_server_process() {
    let v = value_of(&rpc_request(12, "tools/call", "{\"name\":\"add\"}"));
    assert_eq!(v["id"], 12);
    assert_eq!(v["method"], "tools/call");
    assert_eq!(v["params"]["name"], "add");
    assert_eq!(rpc_request(3, "x", "{}"), "{\"jsonrpc\":\"2.0\",\"id\":3,\"method\":\"x\",\"params\":{}}");
    match rpc_answer(br#"{"jsonrpc":"2.0","id":12,"result":{"content":[1]}}"#) {
        Some((12, RpcAnswer::Result(bytes))) => assert_eq!(bytes, b"{\"content\":[1]}".to_vec()),
        other => panic!("unexpected {:?}", other),
    }
    match rpc_answer(br#"{"id":4,"error":{"code":-1,"message":"no"}}"#) {
        Some((4, RpcAnswer::Error(text))) => assert_eq!(value_of(&text)["message"], "no"),
        other => panic!("unexpected {:?}", other),
    }
    match rpc_answer(br#"{"id":5}"#) {
        Some((5, RpcAnswer::Result(bytes))) => assert_eq!(bytes, br#"{"id":5}"#.to_vec()),
        other => panic!("unexpected {:?}", other),
    }
    assert!(rpc_answer(br#"{"method":"notifications/progress"}"#).is_none());
    assert!(rpc_answer(br#"{"id":"text","result":1}"#).is_none());
}

fn stdio_error(message: &[u8]) -> String {
    match plan_stdio_rpc(message, "proc") {
        Err(ClaudeAgentError::Mcp(detail)) => detail,
        other => panic!("expected an error, got {:?}", other),
    }
}

#[test]
fn subprocess_server_refuses_what_it_cannot_serve() {
    assert_eq!(stdio_error(br#"{"id":1,"method":"tools/call"}"#), "Missing params");
    assert_eq!(stdio_error(br#"{"id":1,"method":"tools/call","params":{}}"#), "Missing tool name");
    assert_eq!(stdio_error(br#"{"id":1,"method":"resources/list"}"#), "Unsupported method: resources/list");
    assert_eq!(stdio_error(br#"{"id":1,"method":"notifications/initialized"}"#), "Unsupported method: notifications/initialized");
    assert_eq!(stdio_error(br#"{"id":1}"#), "Unsupported method: unknown");
    match plan_stdio_rpc(br#"{"id":1,"method":"initialize"}"#, "proc") {
        Ok(RpcStep::Reply(text)) => assert_eq!(value_of(&text)["result"]["serverInfo"]["name"], "proc"),
        other => panic!("unexpected {:?}", other),
    }
    assert!(matches!(plan_stdio_rpc(br#"{"id":2,"method":"tools/list"}"#, "proc"), Ok(RpcStep::ListTools { .. })));
    match plan_stdio_rpc(br#"{"id":3,"method":"tools/call","params":{"name":"add","arguments":[1]}}"#, "proc") {
        Ok(RpcStep::CallTool { name, arguments, .. }) => {
            assert_eq!(name, "add");
            assert_eq!(arguments, "[1]");
        },
        other => panic!("unexpected {:?}", other),
    }
    assert_eq!(tools_result("[]"), "{\"tools\":[]}");
}
