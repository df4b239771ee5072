use claude_agent::control::{encode_request, ControlRequest, ControlRequestType, PendingTable};

fn value_of(text: &str) -> serde_json::Value {
    serde_json::from_str(text).unwrap()
}

#[test]
fn control_requests_have_their_wire_form() {
    let req = ControlRequest {
        request_id: "req-1".to_string(),
        request: ControlRequestType::SetPermissionMode { mode: "plan".to_string() },
    };
    let v = value_of(&encode_request(&req));
    assert_eq!(v["type"], "control_request");
    assert_eq!(v["request_id"], "req-1");
    assert_eq!(v["request"]["subtype"], "set_permission_mode");
    assert_eq!(v["request"]["mode"], "plan");

    let req = ControlRequest { request_id: "a\"b".to_string(), request: ControlRequestType::Interrupt };
    let text = encode_request(&req);
    assert_eq!(text, "{\"type\":\"control_request\",\"request_id\":\"a\\\"b\",\"request\":{\"subtype\":\"interrupt\"}}");

    let req = ControlRequest { request_id: "r".to_string(), request: ControlRequestType::SetModel { model: None } };
    assert!(value_of(&encode_request(&req))["request"]["model"].is_null());
    let req = ControlRequest {
        request_id: "r".to_string(),
        request: ControlRequestType::RewindFiles { user_message_id: "m-9".to_string() },
    };
    let v = value_of(&encode_request(&req));
    assert_eq!(v["request"]["subtype"], "rewind_files");
    assert_eq!(v["request"]["user_message_id"], "m-9");
    let req = ControlRequest {
        request_id: "r".to_string(),
        request: ControlRequestType::HookCallback { callback_id: "c".to_string(), output: "{}".to_string() },
    };
    assert!(value_of(&encode_request(&req))["request"].is_null());
}

#[test]
fn responses_in_any_order_reach_their_own_callers_once() {
    let ids = ["id-a", "id-b", "id-c", "id-d"];
    for order in [[0usize, 1, 2, 3], [3, 2, 1, 0], [2, 0, 3, 1]] {
        let mut table: PendingTable<u64> = PendingTable::new();
        for (k, id) in ids.iter().enumerate() {
            assert!(table.register(id.to_string(), k as u64 * 10).is_ok());
        }
        assert_eq!(table.len(), 4);
        assert_eq!(table.take(&"unknown".to_string()), None);
        assert_eq!(table.len(), 4);
        for &j in order.iter() {
            assert_eq!(table.take(&ids[j].to_string()), Some(j as u64 * 10));
            assert_eq!(table.take(&ids[j].to_string()), None);
        }
        assert_eq!(table.len(), 0);
    }
}

#[test]
fn a_pending_id_cannot_be_registered_twice() {
    let mut table: PendingTable<&str> = PendingTable::new();
    assert_eq!(table.register("x".to_string(), "first"), Ok(()));
    assert_eq!(table.register("x".to_string(), "second"), Err("second"));
    assert!(table.contains(&"x".to_string()));
    assert_eq!(table.get(&"x".to_string()), Some(&"first"));
    assert_eq!(table.take(&"x".to_string()), Some("first"));
    assert!(!table.contains(&"x".to_string()));
}
