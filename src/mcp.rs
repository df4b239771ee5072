//! Tool-server descriptions and the choice of transport for a configured
//! server.

use vstd::prelude::*;
use vstd::string::StringExecFns;
use crate::config::{McpServerConfig, McpTransportType};
use crate::error::ClaudeAgentError;

verus! {

/// A tool server reached over server-sent events. This transport is not
/// served: every operation on it fails.
#[derive(Debug, Clone)]
pub struct SseMcpServer {
    pub name: String,
    pub url: String,
}

impl SseMcpServer {
    pub fn new(name: String, url: String) -> (r: Self)
        ensures
            r.name == name,
            r.url == url,
    {
        SseMcpServer { name, url }
    }
}

/// A tool server reached over HTTP. This transport is not served: every
/// operation on it fails.
#[derive(Debug, Clone)]
pub struct HttpMcpServer {
    pub name: String,
    pub url: String,
}

impl HttpMcpServer {
    pub fn new(name: String, url: String) -> (r: Self)
        ensures
            r.name == name,
            r.url == url,
    {
        HttpMcpServer { name, url }
    }
}

/// Which server to create for a configuration, with what it needs.
#[derive(Debug, Clone)]
pub enum ServerPlan {
    Stdio { name: String, command: String, args: Vec<String> },
    Http { name: String, url: String, timeout_secs: Option<u64> },
    Sse { name: String, url: String, timeout_secs: Option<u64> },
}

/// The configuration error for a missing field.
pub open spec fn config_error(e: ClaudeAgentError, detail: Seq<char>) -> bool {
    e matches ClaudeAgentError::Config(d) && d@ == detail
}

/// Whether `r` is the plan for server `name` configured by `config`.
pub open spec fn plan_for(name: Seq<char>, config: McpServerConfig, r: Result<ServerPlan, ClaudeAgentError>) -> bool {
    let stdio = match config.command {
        Some(c) => r matches Ok(ServerPlan::Stdio { name: n, command, args }) && n@ == name && command == c && args
            == config.args,
        None => r matches Err(e) && config_error(e, "Stdio transport requires 'command' field"@),
    };
    let http = match config.url {
        Some(u) => r matches Ok(ServerPlan::Http { name: n, url, timeout_secs }) && n@ == name && url == u
            && timeout_secs == config.timeout_secs,
        None => r matches Err(e) && config_error(e, "HTTP transport requires 'url' field"@),
    };
    match config.transport {
        McpTransportType::Stdio => stdio,
        McpTransportType::Http => http,
        McpTransportType::Sse => match config.url {
            Some(u) => r matches Ok(ServerPlan::Sse { name: n, url, timeout_secs }) && n@ == name && url == u
                && timeout_secs == config.timeout_secs,
            None => r matches Err(e) && config_error(e, "SSE transport requires 'url' field"@),
        },
        McpTransportType::Auto => if config.url.is_some() {
            http
        } else if config.command.is_some() {
            stdio
        } else {
            r matches Err(e) && config_error(
                e,
                "Auto transport requires either 'url' (for HTTP) or 'command' (for Stdio)"@,
            )
        },
    }
}

fn plan_stdio(name: String, config: McpServerConfig) -> (r: Result<ServerPlan, ClaudeAgentError>)
    ensures
        match config.command {
            Some(c) => r matches Ok(ServerPlan::Stdio { name: n, command, args }) && n == name && command == c && args
                == config.args,
            None => r matches Err(e) && config_error(e, "Stdio transport requires 'command' field"@),
        },
{
    match config.command {
        Some(command) => Ok(ServerPlan::Stdio { name, command, args: config.args }),
        None => Err(ClaudeAgentError::Config(String::from_str("Stdio transport requires 'command' field"))),
    }
}

fn plan_http(name: String, config: McpServerConfig) -> (r: Result<ServerPlan, ClaudeAgentError>)
    ensures
        match config.url {
            Some(u) => r matches Ok(ServerPlan::Http { name: n, url, timeout_secs }) && n == name && url == u
                && timeout_secs == config.timeout_secs,
            None => r matches Err(e) && config_error(e, "HTTP transport requires 'url' field"@),
        },
{
    match config.url {
        Some(url) => Ok(ServerPlan::Http { name, url, timeout_secs: config.timeout_secs }),
        None => Err(ClaudeAgentError::Config(String::from_str("HTTP transport requires 'url' field"))),
    }
}

/// Chooses the server to create for `config`. A subprocess needs a
/// command, HTTP and SSE need a URL; `Auto` takes HTTP when a URL is given,
/// else a subprocess when a command is; anything missing is a
/// configuration error.
pub fn plan_mcp_server(name: String, config: McpServerConfig) -> (r: Result<ServerPlan, ClaudeAgentError>)
    ensures
        plan_for(name@, config, r),
{
    match config.transport {
        McpTransportType::Stdio => plan_stdio(name, config),
        McpTransportType::Http => plan_http(name, config),
        McpTransportType::Sse => match config.url {
            Some(url) => Ok(ServerPlan::Sse { name, url, timeout_secs: config.timeout_secs }),
            None => Err(ClaudeAgentError::Config(String::from_str("SSE transport requires 'url' field"))),
        },
        McpTransportType::Auto => {
            if config.url.is_some() {
                plan_http(name, config)
            } else if config.command.is_some() {
                plan_stdio(name, config)
            } else {
                Err(
                    ClaudeAgentError::Config(
                        String::from_str(
                            "Auto transport requires either 'url' (for HTTP) or 'command' (for Stdio)",
                        ),
                    ),
                )
            }
        },
    }
}

} // verus!
