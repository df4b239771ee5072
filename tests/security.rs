use claude_agent::security::{
    constant_time_eq, constant_time_str_eq, validate_json_size, validate_max_length, validate_not_empty,
};

#[test]
fn test_constant_time_eq() {
    assert!(constant_time_eq(b"hello", b"hello"));
    assert!(!constant_time_eq(b"hello", b"world"));
    assert!(!constant_time_eq(b"hello", b"hello!"));
}

#[test]
fn test_constant_time_str_eq() {
    assert!(constant_time_str_eq("password123", "password123"));
    assert!(!constant_time_str_eq("password123", "password124"));
}

#[test]
fn test_validate_not_empty() {
    assert!(validate_not_empty("name", "John").is_ok());
    assert!(validate_not_empty("name", "").is_err());
    assert!(validate_not_empty("name", "   ").is_err());
}

#[test]
fn test_validate_max_length() {
    assert!(validate_max_length("name", "John", 10).is_ok());
    assert!(validate_max_length("name", "John Doe Smith", 10).is_err());
}

#[test]
fn test_validate_json_size() {
    let small = serde_json::to_vec(&serde_json::from_str::<serde_json::Value>(r#"{"key": "value"}"#).unwrap()).unwrap();
    let large_text = format!(r#"{{"key": "{}"}}"#, "x".repeat(1000));
    let large = serde_json::to_vec(&serde_json::from_str::<serde_json::Value>(&large_text).unwrap()).unwrap();

    assert!(validate_json_size("payload", &small, 100).is_ok());
    assert!(validate_json_size("payload", &large, 100).is_err());
}

#[test]
fn validation_messages_name_field_and_limit() {
    let e = validate_max_length("name", "John Doe Smith", 10).unwrap_err();
    assert_eq!(e.field, "name");
    assert_eq!(e.message, "must not exceed 10 characters");
    assert_eq!(e.to_string(), "name: must not exceed 10 characters");
    let e = validate_not_empty("title", "\t \n").unwrap_err();
    assert_eq!(e.message, "must not be empty");
    let e = validate_json_size("payload", br#"{"key":"xxxxxxxxxx"}"#, 5).unwrap_err();
    assert_eq!(e.message, "JSON payload exceeds 5 bytes (got 20 bytes)");
}

#[test]
fn validation_edge_cases() {
    assert!(validate_max_length("name", "abcd", 4).is_ok());
    assert!(validate_max_length("name", "", 0).is_ok());
    assert!(validate_not_empty("name", " x ").is_ok());
    assert!(validate_json_size("payload", b"{not json", 100).is_err());
    assert!(constant_time_eq(b"", b""));
    assert!(!constant_time_str_eq("a", ""));
}

#[test]
fn unicode_whitespace_counts_as_blank() {
    assert!(validate_not_empty("name", "\u{3000}\u{a0}\u{2029}").is_err());
    assert!(validate_not_empty("name", "\u{200b}").is_ok());
    assert!(claude_agent::hooks::matches_tool("\u{a0}Bash\u{85}|Edit", "Bash"));
    assert_eq!(validate_max_length("n", "abcdefghijk", 1234567890).map_err(|e| e.message), Ok(()));
    assert_eq!(validate_max_length("n", "abc", 0).unwrap_err().message, "must not exceed 0 characters");
}
