//! Configuration data: permission modes, tool-server settings, prompts,
//! sandboxing, and what launching the command-line process needs.

use vstd::prelude::*;
use vstd::string::StringExecFns;

verus! {

/// How the far end asks for permission before acting.
#[derive(Debug, Clone, Copy, PartialEq, Eq)]
pub enum PermissionMode {
    Default,
    AcceptEdits,
    Plan,
    BypassPermissions,
}

impl PermissionMode {
    /// The wire name of the mode.
    pub open spec fn spec_name(&self) -> Seq<char> {
        match self {
            PermissionMode::Default => "default"@,
            PermissionMode::AcceptEdits => "acceptEdits"@,
            PermissionMode::Plan => "plan"@,
            PermissionMode::BypassPermissions => "bypassPermissions"@,
        }
    }

    /// The wire name of the mode.
    pub fn to_string(&self) -> (r: String)
        ensures
            r@ == self.spec_name(),
    {
        match self {
            PermissionMode::Default => String::from_str("default"),
            PermissionMode::AcceptEdits => String::from_str("acceptEdits"),
            PermissionMode::Plan => String::from_str("plan"),
            PermissionMode::BypassPermissions => String::from_str("bypassPermissions"),
        }
    }
}

/// How a tool server is reached.
#[derive(Debug, Clone, Copy, PartialEq, Eq)]
pub enum McpTransportType {
    Stdio,
    Http,
    Sse,
    /// HTTP when a URL is given, otherwise a subprocess.
    Auto,
}

impl McpTransportType {
    pub open spec fn spec_name(&self) -> Seq<char> {
        match self {
            McpTransportType::Stdio => "stdio"@,
            McpTransportType::Http => "http"@,
            McpTransportType::Sse => "sse"@,
            McpTransportType::Auto => "auto"@,
        }
    }

    /// The wire name of the transport type.
    pub fn to_string(&self) -> (r: String)
        ensures
            r@ == self.spec_name(),
    {
        match self {
            McpTransportType::Stdio => String::from_str("stdio"),
            McpTransportType::Http => String::from_str("http"),
            McpTransportType::Sse => String::from_str("sse"),
            McpTransportType::Auto => String::from_str("auto"),
        }
    }
}

/// The settings of one tool server.
#[derive(Debug, Clone)]
pub struct McpServerConfig {
    pub transport: McpTransportType,
    /// The command to run, for a subprocess server.
    pub command: Option<String>,
    pub args: Vec<String>,
    /// The endpoint, for an HTTP or SSE server.
    pub url: Option<String>,
    pub timeout_secs: Option<u64>,
    /// Environment variables for a subprocess server.
    pub env: Vec<(String, String)>,
}

impl McpServerConfig {
    /// A subprocess server with no command, arguments, URL or environment.
    pub fn new() -> (r: Self)
        ensures
            r.transport == McpTransportType::Stdio,
            r.command.is_none(),
            r.url.is_none(),
            r.timeout_secs.is_none(),
            r.args@.len() == 0,
            r.env@.len() == 0,
    {
        McpServerConfig {
            transport: McpTransportType::Stdio,
            command: None,
            args: Vec::new(),
            url: None,
            timeout_secs: None,
            env: Vec::new(),
        }
    }
}

#[derive(Debug, Clone, Copy, PartialEq, Eq)]
pub enum SettingSource {
    User,
    Project,
    Local,
}

/// A named system prompt, optionally extended.
#[derive(Debug, Clone)]
pub enum SystemPromptPreset {
    Preset { preset: String, append: Option<String> },
}

/// A named tool set.
#[derive(Debug, Clone)]
pub enum ToolsPreset {
    Preset { preset: String },
}

/// A sub-agent the far end may start.
#[derive(Debug, Clone)]
pub struct AgentDefinition {
    pub description: String,
    pub prompt: String,
    pub tools: Option<Vec<String>>,
    pub model: Option<String>,
}

/// A plugin to load.
#[derive(Debug, Clone)]
pub enum PluginConfig {
    Local { path: String },
}

#[derive(Debug, Clone, Default)]
pub struct SandboxSettings {
    pub enabled: bool,
    pub auto_allow_bash_if_sandboxed: bool,
    pub excluded_commands: Vec<String>,
    pub allow_unsandboxed_commands: bool,
    pub network: Option<SandboxNetworkConfig>,
    pub ignore_violations: Option<SandboxIgnoreViolations>,
    pub enable_weaker_nested_sandbox: bool,
}

#[derive(Debug, Clone, Default)]
pub struct SandboxNetworkConfig {
    pub allow_unix_sockets: Vec<String>,
    pub allow_all_unix_sockets: bool,
    pub allow_local_binding: bool,
    pub http_proxy_port: Option<u16>,
    pub socks_proxy_port: Option<u16>,
}

#[derive(Debug, Clone, Default)]
pub struct SandboxIgnoreViolations {
    pub file: Vec<String>,
    pub network: Vec<String>,
}

/// The tools offered: a list of names or a preset.
#[derive(Debug, Clone)]
pub enum ToolsConfig {
    List(Vec<String>),
    Preset(ToolsPreset),
}

/// The system prompt: a text or a preset.
#[derive(Debug, Clone)]
pub enum SystemPromptConfig {
    Text(String),
    Preset(SystemPromptPreset),
}

} // verus!
