//! Server-side runtime core for an MCP (Model Context Protocol) JSON-RPC
//! server: protocol data types, message validation, the per-connection
//! lifecycle state machine, name-keyed handler registries with paginated
//! listing, the resource subscription manager, and the request dispatcher
//! that ties them together.

pub mod correlation;
pub mod decode;
pub mod dup;
pub mod error;
pub mod json;
pub mod laws;
pub mod lifecycle;
pub mod messages;
pub mod methods;
pub mod registry;
pub mod server;
pub mod subscriptions;
pub mod text;
pub mod types;
pub mod validation;

pub use error::{McpError, McpResult};
