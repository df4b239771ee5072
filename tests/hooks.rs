use claude_agent::hooks::{hook_applies, matches_tool};
use claude_agent::rate_limit::RateLimitConfig;

#[test]
fn test_matches_tool() {
    assert!(matches_tool("Bash", "Bash"));
    assert!(matches_tool("Write|Edit", "Write"));
    assert!(matches_tool("Write|Edit", "Edit"));
    assert!(!matches_tool("Write|Edit", "Read"));
}

#[test]
fn matcher_alternatives_are_trimmed() {
    assert!(matches_tool(" Write | Edit ", "Edit"));
    assert!(matches_tool("Read||Write", "Write"));
    assert!(matches_tool("Read|", ""));
    assert!(!matches_tool("Bash", "bash"));
    assert!(!matches_tool("", "Bash"));
    assert!(matches_tool("", ""));
}

#[test]
fn hooks_without_matcher_or_tool_always_apply() {
    assert!(hook_applies(&None, &Some("Bash".to_string())));
    assert!(hook_applies(&Some("Edit".to_string()), &None));
    assert!(!hook_applies(&Some("Edit".to_string()), &Some("Bash".to_string())));
    assert!(hook_applies(&Some("Edit|Bash".to_string()), &Some("Bash".to_string())));
}

#[test]
fn test_rate_limit_config_default() {
    let config = RateLimitConfig::default();
    assert_eq!(config.requests_per_second, 10);
    assert_eq!(config.burst_size, 20);
}

#[test]
fn rate_limit_presets_and_quota() {
    assert_eq!(RateLimitConfig::permissive(), RateLimitConfig::new(100, 200));
    assert_eq!(RateLimitConfig::strict(), RateLimitConfig::new(5, 10));
    assert_eq!(RateLimitConfig::new(0, 0).effective_quota(), (1, 1));
    assert_eq!(RateLimitConfig::new(7, 0).effective_quota(), (7, 1));
}
