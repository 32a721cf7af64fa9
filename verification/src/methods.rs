//! JSON-RPC method names of the MCP catalog.

use vstd::prelude::*;

verus! {

/// Initialize the connection.
pub const INITIALIZE: &'static str = "initialize";

/// Ping to check the connection.
pub const PING: &'static str = "ping";

/// List available tools.
pub const TOOLS_LIST: &'static str = "tools/list";

/// Call a tool.
pub const TOOLS_CALL: &'static str = "tools/call";

/// Notification that the tool list changed.
pub const TOOLS_LIST_CHANGED: &'static str = "tools/list_changed";

/// List available resources.
pub const RESOURCES_LIST: &'static str = "resources/list";

/// Read a resource.
pub const RESOURCES_READ: &'static str = "resources/read";

/// Subscribe to resource updates.
pub const RESOURCES_SUBSCRIBE: &'static str = "resources/subscribe";

/// Unsubscribe from resource updates.
pub const RESOURCES_UNSUBSCRIBE: &'static str = "resources/unsubscribe";

/// Notification that a resource was updated.
pub const RESOURCES_UPDATED: &'static str = "resources/updated";

/// Notification that the resource list changed.
pub const RESOURCES_LIST_CHANGED: &'static str = "resources/list_changed";

/// List available prompts.
pub const PROMPTS_LIST: &'static str = "prompts/list";

/// Get a prompt.
pub const PROMPTS_GET: &'static str = "prompts/get";

/// Notification that the prompt list changed.
pub const PROMPTS_LIST_CHANGED: &'static str = "prompts/list_changed";

/// Create a message using sampling.
pub const SAMPLING_CREATE_MESSAGE: &'static str = "sampling/createMessage";

/// Set the logging level.
pub const LOGGING_SET_LEVEL: &'static str = "logging/setLevel";

/// Log message notification.
pub const LOGGING_MESSAGE: &'static str = "logging/message";

/// Progress notification.
pub const PROGRESS: &'static str = "progress";

} // verus!
