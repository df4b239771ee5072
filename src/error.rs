//! The error taxonomy shared by every component.

use vstd::prelude::*;
use vstd::string::StringExecFns;

verus! {

/// Every failure the client can report, by kind. Each kind carries a
/// human-readable detail text.
#[derive(Debug, Clone, PartialEq, Eq)]
pub enum ClaudeAgentError {
    /// The command-line executable could not be located or is unusable.
    CLINotFound(String),
    /// Spawning or connecting to the process failed or timed out.
    CLIConnection(String),
    /// The process itself failed.
    Process(String),
    /// Bytes from the process were not well-formed JSON.
    JSONDecode(String),
    /// Well-formed JSON did not have the shape of a message.
    MessageParse(String),
    /// Reading, writing or buffering on the transport failed.
    Transport(String),
    /// A control request could not be sent or answered.
    ControlProtocol(String),
    /// A tool server failed.
    Mcp(String),
    /// A configuration lacks a field that its kind requires.
    Config(String),
    /// A component could not be initialised.
    Initialization(String),
    /// Anything else.
    Unknown(String),
}

impl ClaudeAgentError {
    /// The label that starts the rendered text of this kind of error.
    pub open spec fn spec_label(&self) -> Seq<char> {
        match self {
            ClaudeAgentError::CLINotFound(_) => "CLI not found: "@,
            ClaudeAgentError::CLIConnection(_) => "CLI connection error: "@,
            ClaudeAgentError::Process(_) => "Process error: "@,
            ClaudeAgentError::JSONDecode(_) => "JSON decode error: "@,
            ClaudeAgentError::MessageParse(_) => "Message parse error: "@,
            ClaudeAgentError::Transport(_) => "Transport error: "@,
            ClaudeAgentError::ControlProtocol(_) => "Control protocol error: "@,
            ClaudeAgentError::Mcp(_) => "MCP error: "@,
            ClaudeAgentError::Config(_) => "Configuration error: "@,
            ClaudeAgentError::Initialization(_) => "Initialization error: "@,
            ClaudeAgentError::Unknown(_) => "Unknown error: "@,
        }
    }

    /// The detail text carried by the error.
    pub open spec fn spec_detail(&self) -> Seq<char> {
        match self {
            ClaudeAgentError::CLINotFound(d) => d@,
            ClaudeAgentError::CLIConnection(d) => d@,
            ClaudeAgentError::Process(d) => d@,
            ClaudeAgentError::JSONDecode(d) => d@,
            ClaudeAgentError::MessageParse(d) => d@,
            ClaudeAgentError::Transport(d) => d@,
            ClaudeAgentError::ControlProtocol(d) => d@,
            ClaudeAgentError::Mcp(d) => d@,
            ClaudeAgentError::Config(d) => d@,
            ClaudeAgentError::Initialization(d) => d@,
            ClaudeAgentError::Unknown(d) => d@,
        }
    }

    /// Renders the error as its label followed by its detail text.
    pub fn to_string(&self) -> (r: String)
        ensures
            r@ == self.spec_label() + self.spec_detail(),
    {
        let (label, detail) = match self {
            ClaudeAgentError::CLINotFound(d) => ("CLI not found: ", d),
            ClaudeAgentError::CLIConnection(d) => ("CLI connection error: ", d),
            ClaudeAgentError::Process(d) => ("Process error: ", d),
            ClaudeAgentError::JSONDecode(d) => ("JSON decode error: ", d),
            ClaudeAgentError::MessageParse(d) => ("Message parse error: ", d),
            ClaudeAgentError::Transport(d) => ("Transport error: ", d),
            ClaudeAgentError::ControlProtocol(d) => ("Control protocol error: ", d),
            ClaudeAgentError::Mcp(d) => ("MCP error: ", d),
            ClaudeAgentError::Config(d) => ("Configuration error: ", d),
            ClaudeAgentError::Initialization(d) => ("Initialization error: ", d),
            ClaudeAgentError::Unknown(d) => ("Unknown error: ", d),
        };
        let mut text = String::from_str(label);
        text.append(detail.as_str());
        text
    }
}

} // verus!
