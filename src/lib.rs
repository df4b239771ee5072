//! Client core for driving an agent command-line process over a
//! newline-delimited JSON protocol: frame splitting, message decoding,
//! control-request correlation and turn routing, all with verified contracts.

pub mod cli;
pub mod config;
pub mod control;
pub mod error;
pub mod fields;
pub mod frame;
pub mod hooks;
pub mod json;
pub mod mcp;
pub mod message;
pub mod parser;
pub mod rate_limit;
pub mod rpc;
pub mod security;
pub mod session;
pub mod table;
pub mod text;
pub mod turn;

pub use error::ClaudeAgentError;
