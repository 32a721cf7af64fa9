//! Error type shared by the protocol layer and the server engine.
//!
//! Every fallible operation in the crate reports an `McpError`; the
//! dispatcher maps each variant onto the JSON-RPC error code the wire
//! contract assigns to it.

use vstd::prelude::*;

verus! {

/// Errors raised by protocol handling and the server engine.
#[derive(Debug, Clone, PartialEq, Eq)]
pub enum McpError {
    /// A protocol-level failure (malformed or out-of-order exchange).
    Protocol(String),
    /// A message or parameter failed structural validation.
    Validation(String),
    /// No tool is registered under the requested name.
    ToolNotFound(String),
    /// No resource is registered under the requested URI.
    ResourceNotFound(String),
    /// No prompt is registered under the requested name.
    PromptNotFound(String),
    /// An unexpected failure inside handler execution.
    Internal(String),
}

/// Result alias used throughout the crate.
pub type McpResult<T> = Result<T, McpError>;

/// The JSON-RPC error code that the wire contract assigns to each
/// `McpError` variant.
pub open spec fn spec_error_code(e: McpError) -> int {
    match e {
        McpError::Protocol(_) => -32600,
        McpError::Validation(_) => -32602,
        McpError::ToolNotFound(_) => -32000,
        McpError::ResourceNotFound(_) => -32001,
        McpError::PromptNotFound(_) => -32002,
        McpError::Internal(_) => -32603,
    }
}

/// The human-readable text carried by an `McpError`.
pub open spec fn spec_error_text(e: McpError) -> Seq<char> {
    match e {
        McpError::Protocol(s) => s@,
        McpError::Validation(s) => s@,
        McpError::ToolNotFound(s) => s@,
        McpError::ResourceNotFound(s) => s@,
        McpError::PromptNotFound(s) => s@,
        McpError::Internal(s) => s@,
    }
}

impl McpError {
    /// The JSON-RPC error code for this error.
    pub fn error_code(&self) -> (code: i32)
        ensures
            code == spec_error_code(*self),
    {
        match self {
            McpError::Protocol(_) => -32600,
            McpError::Validation(_) => -32602,
            McpError::ToolNotFound(_) => -32000,
            McpError::ResourceNotFound(_) => -32001,
            McpError::PromptNotFound(_) => -32002,
            McpError::Internal(_) => -32603,
        }
    }

    /// The message text carried by this error.
    pub fn message(&self) -> (msg: String)
        ensures
            msg@ == spec_error_text(*self),
    {
        match self {
            McpError::Protocol(s) => s.clone(),
            McpError::Validation(s) => s.clone(),
            McpError::ToolNotFound(s) => s.clone(),
            McpError::ResourceNotFound(s) => s.clone(),
            McpError::PromptNotFound(s) => s.clone(),
            McpError::Internal(s) => s.clone(),
        }
    }
}

} // verus!
