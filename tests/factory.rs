use claude_agent::config::{McpServerConfig, McpTransportType};
use claude_agent::mcp::{plan_mcp_server, HttpMcpServer, ServerPlan, SseMcpServer};
use claude_agent::ClaudeAgentError;

fn plan_name(plan: &ServerPlan) -> &str {
    match plan {
        ServerPlan::Stdio { name, .. } => name,
        ServerPlan::Http { name, .. } => name,
        ServerPlan::Sse { name, .. } => name,
    }
}

#[test]
fn test_create_http_server() {
    let config = McpServerConfig {
        transport: McpTransportType::Http,
        url: Some("http://localhost:8080".to_string()),
        timeout_secs: Some(60),
        ..McpServerConfig::new()
    };

    let server = plan_mcp_server("test".to_string(), config).unwrap();
    assert_eq!(plan_name(&server), "test");
    assert!(matches!(server, ServerPlan::Http { timeout_secs: Some(60), .. }));
}

#[test]
fn test_create_sse_server() {
    let config = McpServerConfig {
        transport: McpTransportType::Sse,
        url: Some("http://localhost:8080/sse".to_string()),
        ..McpServerConfig::new()
    };

    let server = plan_mcp_server("sse_test".to_string(), config).unwrap();
    assert_eq!(plan_name(&server), "sse_test");
}

#[test]
fn test_create_stdio_server() {
    let config = McpServerConfig {
        transport: McpTransportType::Stdio,
        command: Some("python".to_string()),
        args: vec!["-m".to_string(), "mcp_server".to_string()],
        ..McpServerConfig::new()
    };

    let server = plan_mcp_server("stdio_test".to_string(), config).unwrap();
    assert_eq!(plan_name(&server), "stdio_test");
    match server {
        ServerPlan::Stdio { command, args, .. } => {
            assert_eq!(command, "python");
            assert_eq!(args, vec!["-m".to_string(), "mcp_server".to_string()]);
        },
        _ => panic!("Expected a subprocess server"),
    }
}

#[test]
fn test_create_auto_server_with_url() {
    let config = McpServerConfig {
        transport: McpTransportType::Auto,
        url: Some("http://localhost:8080".to_string()),
        ..McpServerConfig::new()
    };

    let server = plan_mcp_server("auto_http".to_string(), config).unwrap();
    assert_eq!(plan_name(&server), "auto_http");
    assert!(matches!(server, ServerPlan::Http { .. }));
}

#[test]
fn test_create_auto_server_with_command() {
    let config = McpServerConfig {
        transport: McpTransportType::Auto,
        command: Some("node".to_string()),
        args: vec!["server.js".to_string()],
        ..McpServerConfig::new()
    };

    let server = plan_mcp_server("auto_stdio".to_string(), config).unwrap();
    assert_eq!(plan_name(&server), "auto_stdio");
    assert!(matches!(server, ServerPlan::Stdio { .. }));
}

#[test]
fn test_http_server_missing_url() {
    let config = McpServerConfig { transport: McpTransportType::Http, ..McpServerConfig::new() };

    let result = plan_mcp_server("test".to_string(), config);
    assert!(result.is_err());
}

#[test]
fn test_stdio_server_missing_command() {
    let config = McpServerConfig { transport: McpTransportType::Stdio, ..McpServerConfig::new() };

    let result = plan_mcp_server("test".to_string(), config);
    assert!(result.is_err());
}

#[test]
fn auto_without_url_or_command_is_a_configuration_error() {
    let config = McpServerConfig { transport: McpTransportType::Auto, ..McpServerConfig::new() };
    match plan_mcp_server("x".to_string(), config) {
        Err(ClaudeAgentError::Config(detail)) => {
            assert_eq!(detail, "Auto transport requires either 'url' (for HTTP) or 'command' (for Stdio)")
        },
        other => panic!("unexpected {:?}", other),
    }
    let config = McpServerConfig { transport: McpTransportType::Sse, ..McpServerConfig::new() };
    match plan_mcp_server("x".to_string(), config) {
        Err(ClaudeAgentError::Config(detail)) => assert_eq!(detail, "SSE transport requires 'url' field"),
        other => panic!("unexpected {:?}", other),
    }
}

#[test]
fn placeholder_servers_keep_name_and_url() {
    let http = HttpMcpServer::new("h".to_string(), "http://a".to_string());
    assert_eq!((http.name.as_str(), http.url.as_str()), ("h", "http://a"));
    let sse = SseMcpServer::new("s".to_string(), "http://b".to_string());
    assert_eq!((sse.name.as_str(), sse.url.as_str()), ("s", "http://b"));
    assert_eq!(McpTransportType::Auto.to_string(), "auto");
}
