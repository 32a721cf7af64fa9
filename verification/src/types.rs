//! Core protocol types: identities, capability sets, content shapes,
//! handler metadata, and the JSON-RPC message frames.
//!
//! Each data-carrying type has a mathematical mirror (its `View`) that
//! contracts throughout the crate speak about.

use vstd::prelude::*;

use crate::dup::DeepClone;
use crate::json::{JsonSpec, JsonValue};

verus! {

// ===========================================================================
// Standard JSON-RPC error codes
// ===========================================================================
/// Invalid JSON was received.
pub const PARSE_ERROR: i32 = -32700;

/// The JSON sent is not a valid Request object.
pub const INVALID_REQUEST: i32 = -32600;

/// The method does not exist / is not available.
pub const METHOD_NOT_FOUND: i32 = -32601;

/// Invalid method parameter(s).
pub const INVALID_PARAMS: i32 = -32602;

/// Internal JSON-RPC error.
pub const INTERNAL_ERROR: i32 = -32603;

/// Tool not found.
pub const TOOL_NOT_FOUND: i32 = -32000;

/// Resource not found.
pub const RESOURCE_NOT_FOUND: i32 = -32001;

/// Prompt not found.
pub const PROMPT_NOT_FOUND: i32 = -32002;

// ===========================================================================
// Server and client identity
// ===========================================================================
/// Information about an MCP server.
#[derive(Debug, PartialEq, Eq)]
pub struct ServerInfo {
    /// Name of the server.
    pub name: String,
    /// Version of the server.
    pub version: String,
}

/// The mathematical value of a `ServerInfo`.
#[verifier::ext_equal]
pub struct ServerInfoView {
    pub name: Seq<char>,
    pub version: Seq<char>,
}

impl View for ServerInfo {
    type V = ServerInfoView;

    open spec fn view(&self) -> ServerInfoView {
        ServerInfoView { name: self.name@, version: self.version@ }
    }
}

impl DeepView for ServerInfo {
    type V = ServerInfoView;

    open spec fn deep_view(&self) -> ServerInfoView {
        self.view()
    }
}

impl DeepClone for ServerInfo {
    fn deep_clone(&self) -> (r: Self)
        ensures
            r.deep_view() == self.deep_view(),
    {
        ServerInfo { name: self.name.deep_clone(), version: self.version.deep_clone() }
    }
}

/// Information about an MCP client.
#[derive(Debug, PartialEq, Eq)]
pub struct ClientInfo {
    /// Name of the client.
    pub name: String,
    /// Version of the client.
    pub version: String,
}

/// The mathematical value of a `ClientInfo`.
#[verifier::ext_equal]
pub struct ClientInfoView {
    pub name: Seq<char>,
    pub version: Seq<char>,
}

impl View for ClientInfo {
    type V = ClientInfoView;

    open spec fn view(&self) -> ClientInfoView {
        ClientInfoView { name: self.name@, version: self.version@ }
    }
}

impl DeepView for ClientInfo {
    type V = ClientInfoView;

    open spec fn deep_view(&self) -> ClientInfoView {
        self.view()
    }
}

impl DeepClone for ClientInfo {
    fn deep_clone(&self) -> (r: Self)
        ensures
            r.deep_view() == self.deep_view(),
    {
        ClientInfo { name: self.name.deep_clone(), version: self.version.deep_clone() }
    }
}

// ===========================================================================
// Capability sets
// ===========================================================================
/// Prompt-related server capabilities.
#[derive(Debug, Clone, Copy, PartialEq, Eq)]
pub struct PromptsCapability {
    /// Whether the server supports prompt list change notifications.
    pub list_changed: Option<bool>,
}

/// Resource-related server capabilities.
#[derive(Debug, Clone, Copy, PartialEq, Eq)]
pub struct ResourcesCapability {
    /// Whether the server supports resource subscriptions.
    pub subscribe: Option<bool>,
    /// Whether the server supports resource list change notifications.
    pub list_changed: Option<bool>,
}

/// Tool-related server capabilities.
#[derive(Debug, Clone, Copy, PartialEq, Eq)]
pub struct ToolsCapability {
    /// Whether the server supports tool list change notifications.
    pub list_changed: Option<bool>,
}

/// Sampling-related capabilities.
#[derive(Debug, Clone, Copy, PartialEq, Eq)]
pub struct SamplingCapability {}

/// Capabilities advertised by an MCP server.
#[derive(Debug, Clone, Copy, PartialEq, Eq)]
pub struct ServerCapabilities {
    /// Prompt-related capabilities.
    pub prompts: Option<PromptsCapability>,
    /// Resource-related capabilities.
    pub resources: Option<ResourcesCapability>,
    /// Tool-related capabilities.
    pub tools: Option<ToolsCapability>,
    /// Sampling-related capabilities.
    pub sampling: Option<SamplingCapability>,
}

impl Default for ServerCapabilities {
    /// A capability set that declares nothing.
    fn default() -> (r: Self)
        ensures
            r.prompts is None,
            r.resources is None,
            r.tools is None,
            r.sampling is None,
    {
        ServerCapabilities { prompts: None, resources: None, tools: None, sampling: None }
    }
}

/// Capabilities advertised by an MCP client.
#[derive(Debug, Clone, Copy, PartialEq, Eq)]
pub struct ClientCapabilities {
    /// Sampling-related capabilities.
    pub sampling: Option<SamplingCapability>,
}

impl Default for ClientCapabilities {
    /// A capability set that declares nothing.
    fn default() -> (r: Self)
        ensures
            r.sampling is None,
    {
        ClientCapabilities { sampling: None }
    }
}

// ===========================================================================
// Content shapes
// ===========================================================================
/// Content that can be returned by tools, resources, or prompts.
#[derive(Debug, PartialEq, Eq)]
pub enum Content {
    /// Text content.
    Text {
        /// The text content.
        text: String,
    },
    /// Image content.
    Image {
        /// Base64-encoded image data.
        data: String,
        /// MIME type of the image.
        mime_type: String,
    },
}

/// The mathematical value of a `Content`.
#[verifier::ext_equal]
pub enum ContentView {
    Text { text: Seq<char> },
    Image { data: Seq<char>, mime_type: Seq<char> },
}

impl View for Content {
    type V = ContentView;

    open spec fn view(&self) -> ContentView {
        match self {
            Content::Text { text } => ContentView::Text { text: text@ },
            Content::Image { data, mime_type } => ContentView::Image {
                data: data@,
                mime_type: mime_type@,
            },
        }
    }
}

impl DeepView for Content {
    type V = ContentView;

    open spec fn deep_view(&self) -> ContentView {
        self.view()
    }
}

impl DeepClone for Content {
    fn deep_clone(&self) -> (r: Self)
        ensures
            r.deep_view() == self.deep_view(),
    {
        match self {
            Content::Text { text } => Content::Text { text: text.deep_clone() },
            Content::Image { data, mime_type } => Content::Image {
                data: data.deep_clone(),
                mime_type: mime_type.deep_clone(),
            },
        }
    }
}

impl Content {
    /// Create text content.
    pub fn text(text: String) -> (r: Self)
        ensures
            r@ == (ContentView::Text { text: text@ }),
    {
        Content::Text { text }
    }

    /// Create image content.
    pub fn image(data: String, mime_type: String) -> (r: Self)
        ensures
            r@ == (ContentView::Image { data: data@, mime_type: mime_type@ }),
    {
        Content::Image { data, mime_type }
    }
}

/// Content of a resource.
#[derive(Debug, PartialEq, Eq)]
pub struct ResourceContent {
    /// URI of the resource.
    pub uri: String,
    /// MIME type of the content.
    pub mime_type: Option<String>,
    /// Text content (for text resources).
    pub text: Option<String>,
    /// Binary content encoded as base64 (for binary resources).
    pub blob: Option<String>,
}

/// The mathematical value of a `ResourceContent`.
#[verifier::ext_equal]
pub struct ResourceContentView {
    pub uri: Seq<char>,
    pub mime_type: Option<Seq<char>>,
    pub text: Option<Seq<char>>,
    pub blob: Option<Seq<char>>,
}

impl View for ResourceContent {
    type V = ResourceContentView;

    open spec fn view(&self) -> ResourceContentView {
        ResourceContentView {
            uri: self.uri@,
            mime_type: self.mime_type.deep_view(),
            text: self.text.deep_view(),
            blob: self.blob.deep_view(),
        }
    }
}

impl DeepView for ResourceContent {
    type V = ResourceContentView;

    open spec fn deep_view(&self) -> ResourceContentView {
        self.view()
    }
}

impl DeepClone for ResourceContent {
    fn deep_clone(&self) -> (r: Self)
        ensures
            r.deep_view() == self.deep_view(),
    {
        ResourceContent {
            uri: self.uri.deep_clone(),
            mime_type: self.mime_type.deep_clone(),
            text: self.text.deep_clone(),
            blob: self.blob.deep_clone(),
        }
    }
}

/// Result of a tool execution.
#[derive(Debug, PartialEq, Eq)]
pub struct ToolResult {
    /// Content returned by the tool.
    pub content: Vec<Content>,
    /// Whether this result represents an error.
    pub is_error: Option<bool>,
}

/// The mathematical value of a `ToolResult`.
#[verifier::ext_equal]
pub struct ToolResultView {
    pub content: Seq<ContentView>,
    pub is_error: Option<bool>,
}

impl View for ToolResult {
    type V = ToolResultView;

    open spec fn view(&self) -> ToolResultView {
        ToolResultView { content: self.content.deep_view(), is_error: self.is_error }
    }
}

impl DeepView for ToolResult {
    type V = ToolResultView;

    open spec fn deep_view(&self) -> ToolResultView {
        self.view()
    }
}

impl DeepClone for ToolResult {
    fn deep_clone(&self) -> (r: Self)
        ensures
            r.deep_view() == self.deep_view(),
    {
        ToolResult { content: self.content.deep_clone(), is_error: self.is_error }
    }
}

// ===========================================================================
// Handler metadata
// ===========================================================================
/// Information about a tool.
#[derive(Debug, PartialEq, Eq)]
pub struct ToolInfo {
    /// Name of the tool.
    pub name: String,
    /// Description of what the tool does.
    pub description: Option<String>,
    /// JSON Schema describing the tool's input parameters.
    pub input_schema: JsonValue,
}

/// The mathematical value of a `ToolInfo`.
#[verifier::ext_equal]
pub struct ToolInfoView {
    pub name: Seq<char>,
    pub description: Option<Seq<char>>,
    pub input_schema: JsonSpec,
}

impl View for ToolInfo {
    type V = ToolInfoView;

    open spec fn view(&self) -> ToolInfoView {
        ToolInfoView {
            name: self.name@,
            description: self.description.deep_view(),
            input_schema: self.input_schema@,
        }
    }
}

impl DeepView for ToolInfo {
    type V = ToolInfoView;

    open spec fn deep_view(&self) -> ToolInfoView {
        self.view()
    }
}

impl DeepClone for ToolInfo {
    fn deep_clone(&self) -> (r: Self)
        ensures
            r.deep_view() == self.deep_view(),
    {
        ToolInfo {
            name: self.name.deep_clone(),
            description: self.description.deep_clone(),
            input_schema: self.input_schema.deep_clone(),
        }
    }
}

/// Information about a resource.
#[derive(Debug, PartialEq, Eq)]
pub struct ResourceInfo {
    /// URI of the resource.
    pub uri: String,
    /// Human-readable name of the resource.
    pub name: String,
    /// Description of the resource.
    pub description: Option<String>,
    /// MIME type of the resource.
    pub mime_type: Option<String>,
}

/// The mathematical value of a `ResourceInfo`.
#[verifier::ext_equal]
pub struct ResourceInfoView {
    pub uri: Seq<char>,
    pub name: Seq<char>,
    pub description: Option<Seq<char>>,
    pub mime_type: Option<Seq<char>>,
}

impl View for ResourceInfo {
    type V = ResourceInfoView;

    open spec fn view(&self) -> ResourceInfoView {
        ResourceInfoView {
            uri: self.uri@,
            name: self.name@,
            description: self.description.deep_view(),
            mime_type: self.mime_type.deep_view(),
        }
    }
}

impl DeepView for ResourceInfo {
    type V = ResourceInfoView;

    open spec fn deep_view(&self) -> ResourceInfoView {
        self.view()
    }
}

impl DeepClone for ResourceInfo {
    fn deep_clone(&self) -> (r: Self)
        ensures
            r.deep_view() == self.deep_view(),
    {
        ResourceInfo {
            uri: self.uri.deep_clone(),
            name: self.name.deep_clone(),
            description: self.description.deep_clone(),
            mime_type: self.mime_type.deep_clone(),
        }
    }
}

/// Argument for a prompt.
#[derive(Debug, PartialEq, Eq)]
pub struct PromptArgument {
    /// Name of the argument.
    pub name: String,
    /// Description of the argument.
    pub description: Option<String>,
    /// Whether this argument is required.
    pub required: bool,
}

/// The mathematical value of a `PromptArgument`.
#[verifier::ext_equal]
pub struct PromptArgumentView {
    pub name: Seq<char>,
    pub description: Option<Seq<char>>,
    pub required: bool,
}

impl View for PromptArgument {
    type V = PromptArgumentView;

    open spec fn view(&self) -> PromptArgumentView {
        PromptArgumentView {
            name: self.name@,
            description: self.description.deep_view(),
            required: self.required,
        }
    }
}

impl DeepView for PromptArgument {
    type V = PromptArgumentView;

    open spec fn deep_view(&self) -> PromptArgumentView {
        self.view()
    }
}

impl DeepClone for PromptArgument {
    fn deep_clone(&self) -> (r: Self)
        ensures
            r.deep_view() == self.deep_view(),
    {
        PromptArgument {
            name: self.name.deep_clone(),
            description: self.description.deep_clone(),
            required: self.required,
        }
    }
}

/// Information about a prompt.
#[derive(Debug, PartialEq, Eq)]
pub struct PromptInfo {
    /// Name of the prompt.
    pub name: String,
    /// Description of what the prompt does.
    pub description: Option<String>,
    /// Arguments that the prompt accepts.
    pub arguments: Option<Vec<PromptArgument>>,
}

/// The mathematical value of a `PromptInfo`.
#[verifier::ext_equal]
pub struct PromptInfoView {
    pub name: Seq<char>,
    pub description: Option<Seq<char>>,
    pub arguments: Option<Seq<PromptArgumentView>>,
}

impl View for PromptInfo {
    type V = PromptInfoView;

    open spec fn view(&self) -> PromptInfoView {
        PromptInfoView {
            name: self.name@,
            description: self.description.deep_view(),
            arguments: self.arguments.deep_view(),
        }
    }
}

impl DeepView for PromptInfo {
    type V = PromptInfoView;

    open spec fn deep_view(&self) -> PromptInfoView {
        self.view()
    }
}

impl DeepClone for PromptInfo {
    fn deep_clone(&self) -> (r: Self)
        ensures
            r.deep_view() == self.deep_view(),
    {
        PromptInfo {
            name: self.name.deep_clone(),
            description: self.description.deep_clone(),
            arguments: self.arguments.deep_clone(),
        }
    }
}

// ===========================================================================
// Prompt results
// ===========================================================================
/// Content of a prompt message.
#[derive(Debug, PartialEq, Eq)]
pub enum PromptContent {
    /// Text content.
    Text {
        /// Type identifier.
        content_type: String,
        /// The text content.
        text: String,
    },
    /// Image content.
    Image {
        /// Type identifier.
        content_type: String,
        /// Base64-encoded image data.
        data: String,
        /// MIME type of the image.
        mime_type: String,
    },
}

/// The mathematical value of a `PromptContent`.
#[verifier::ext_equal]
pub enum PromptContentView {
    Text { content_type: Seq<char>, text: Seq<char> },
    Image { content_type: Seq<char>, data: Seq<char>, mime_type: Seq<char> },
}

impl View for PromptContent {
    type V = PromptContentView;

    open spec fn view(&self) -> PromptContentView {
        match self {
            PromptContent::Text { content_type, text } => PromptContentView::Text {
                content_type: content_type@,
                text: text@,
            },
            PromptContent::Image { content_type, data, mime_type } => PromptContentView::Image {
                content_type: content_type@,
                data: data@,
                mime_type: mime_type@,
            },
        }
    }
}

impl DeepView for PromptContent {
    type V = PromptContentView;

    open spec fn deep_view(&self) -> PromptContentView {
        self.view()
    }
}

impl DeepClone for PromptContent {
    fn deep_clone(&self) -> (r: Self)
        ensures
            r.deep_view() == self.deep_view(),
    {
        match self {
            PromptContent::Text { content_type, text } => PromptContent::Text {
                content_type: content_type.deep_clone(),
                text: text.deep_clone(),
            },
            PromptContent::Image { content_type, data, mime_type } => PromptContent::Image {
                content_type: content_type.deep_clone(),
                data: data.deep_clone(),
                mime_type: mime_type.deep_clone(),
            },
        }
    }
}

impl PromptContent {
    /// Create text prompt content.
    pub fn text(text: String) -> (r: Self)
        ensures
            r@ == (PromptContentView::Text { content_type: "text"@, text: text@ }),
    {
        PromptContent::Text { content_type: String::from_str("text"), text }
    }

    /// Create image prompt content.
    pub fn image(data: String, mime_type: String) -> (r: Self)
        ensures
            r@ == (PromptContentView::Image {
                content_type: "image"@,
                data: data@,
                mime_type: mime_type@,
            }),
    {
        PromptContent::Image { content_type: String::from_str("image"), data, mime_type }
    }
}

/// Message in a prompt result.
#[derive(Debug, PartialEq, Eq)]
pub struct PromptMessage {
    /// Role of the message (e.g., "user", "assistant", "system").
    pub role: String,
    /// Content of the message.
    pub content: PromptContent,
}

/// The mathematical value of a `PromptMessage`.
#[verifier::ext_equal]
pub struct PromptMessageView {
    pub role: Seq<char>,
    pub content: PromptContentView,
}

impl View for PromptMessage {
    type V = PromptMessageView;

    open spec fn view(&self) -> PromptMessageView {
        PromptMessageView { role: self.role@, content: self.content@ }
    }
}

impl DeepView for PromptMessage {
    type V = PromptMessageView;

    open spec fn deep_view(&self) -> PromptMessageView {
        self.view()
    }
}

impl DeepClone for PromptMessage {
    fn deep_clone(&self) -> (r: Self)
        ensures
            r.deep_view() == self.deep_view(),
    {
        PromptMessage { role: self.role.deep_clone(), content: self.content.deep_clone() }
    }
}

/// Result of prompt execution.
#[derive(Debug, PartialEq, Eq)]
pub struct PromptResult {
    /// Description of the prompt result.
    pub description: Option<String>,
    /// Messages generated by the prompt.
    pub messages: Vec<PromptMessage>,
}

/// The mathematical value of a `PromptResult`.
#[verifier::ext_equal]
pub struct PromptResultView {
    pub description: Option<Seq<char>>,
    pub messages: Seq<PromptMessageView>,
}

impl View for PromptResult {
    type V = PromptResultView;

    open spec fn view(&self) -> PromptResultView {
        PromptResultView {
            description: self.description.deep_view(),
            messages: self.messages.deep_view(),
        }
    }
}

impl DeepView for PromptResult {
    type V = PromptResultView;

    open spec fn deep_view(&self) -> PromptResultView {
        self.view()
    }
}

impl DeepClone for PromptResult {
    fn deep_clone(&self) -> (r: Self)
        ensures
            r.deep_view() == self.deep_view(),
    {
        PromptResult {
            description: self.description.deep_clone(),
            messages: self.messages.deep_clone(),
        }
    }
}

// ===========================================================================
// JSON-RPC 2.0 message frames
// ===========================================================================
/// JSON-RPC 2.0 request message.
#[derive(Debug, PartialEq, Eq)]
pub struct JsonRpcRequest {
    /// JSON-RPC version (always "2.0").
    pub jsonrpc: String,
    /// Request ID for correlation.
    pub id: JsonValue,
    /// Method name being called.
    pub method: String,
    /// Method parameters.
    pub params: Option<JsonValue>,
}

/// The mathematical value of a `JsonRpcRequest`.
#[verifier::ext_equal]
pub struct JsonRpcRequestView {
    pub jsonrpc: Seq<char>,
    pub id: JsonSpec,
    pub method: Seq<char>,
    pub params: Option<JsonSpec>,
}

impl View for JsonRpcRequest {
    type V = JsonRpcRequestView;

    open spec fn view(&self) -> JsonRpcRequestView {
        JsonRpcRequestView {
            jsonrpc: self.jsonrpc@,
            id: self.id@,
            method: self.method@,
            params: self.params.deep_view(),
        }
    }
}

impl JsonRpcRequest {
    /// Create a new JSON-RPC request.
    pub fn new(id: JsonValue, method: String, params: Option<JsonValue>) -> (r: Self)
        ensures
            r@ == (JsonRpcRequestView {
                jsonrpc: "2.0"@,
                id: id@,
                method: method@,
                params: params.deep_view(),
            }),
    {
        JsonRpcRequest { jsonrpc: String::from_str("2.0"), id, method, params }
    }
}

/// JSON-RPC 2.0 error information.
#[derive(Debug, PartialEq, Eq)]
pub struct JsonRpcError {
    /// Error code.
    pub code: i32,
    /// Error message.
    pub message: String,
    /// Additional error data.
    pub data: Option<JsonValue>,
}

/// The mathematical value of a `JsonRpcError`.
#[verifier::ext_equal]
pub struct JsonRpcErrorView {
    pub code: int,
    pub message: Seq<char>,
    pub data: Option<JsonSpec>,
}

impl View for JsonRpcError {
    type V = JsonRpcErrorView;

    open spec fn view(&self) -> JsonRpcErrorView {
        JsonRpcErrorView { code: self.code as int, message: self.message@, data: self.data.deep_view() }
    }
}

/// JSON-RPC 2.0 response message.
#[derive(Debug, PartialEq, Eq)]
pub struct JsonRpcResponse {
    /// JSON-RPC version (always "2.0").
    pub jsonrpc: String,
    /// Request ID for correlation.
    pub id: JsonValue,
    /// Result of the method call (if successful).
    pub result: Option<JsonValue>,
    /// Error information (if unsuccessful).
    pub error: Option<JsonRpcError>,
}

/// The mathematical value of a `JsonRpcResponse`.
#[verifier::ext_equal]
pub struct JsonRpcResponseView {
    pub jsonrpc: Seq<char>,
    pub id: JsonSpec,
    pub result: Option<JsonSpec>,
    pub error: Option<JsonRpcErrorView>,
}

impl View for JsonRpcResponse {
    type V = JsonRpcResponseView;

    open spec fn view(&self) -> JsonRpcResponseView {
        JsonRpcResponseView {
            jsonrpc: self.jsonrpc@,
            id: self.id@,
            result: match self.result {
                Some(v) => Some(v@),
                None => None,
            },
            error: match self.error {
                Some(e) => Some(e@),
                None => None,
            },
        }
    }
}

impl JsonRpcResponse {
    /// Create a successful JSON-RPC response.
    pub fn success(id: JsonValue, result: JsonValue) -> (r: Self)
        ensures
            r@ == (JsonRpcResponseView {
                jsonrpc: "2.0"@,
                id: id@,
                result: Some(result@),
                error: None,
            }),
    {
        JsonRpcResponse { jsonrpc: String::from_str("2.0"), id, result: Some(result), error: None }
    }

    /// Create an error JSON-RPC response.
    pub fn error(id: JsonValue, code: i32, message: String, data: Option<JsonValue>) -> (r: Self)
        ensures
            r@ == (JsonRpcResponseView {
                jsonrpc: "2.0"@,
                id: id@,
                result: None,
                error: Some(
                    JsonRpcErrorView { code: code as int, message: message@, data: data.deep_view() },
                ),
            }),
    {
        JsonRpcResponse {
            jsonrpc: String::from_str("2.0"),
            id,
            result: None,
            error: Some(JsonRpcError { code, message, data }),
        }
    }
}

/// JSON-RPC 2.0 notification message.
#[derive(Debug, PartialEq, Eq)]
pub struct JsonRpcNotification {
    /// JSON-RPC version (always "2.0").
    pub jsonrpc: String,
    /// Method name being called.
    pub method: String,
    /// Method parameters.
    pub params: Option<JsonValue>,
}

/// The mathematical value of a `JsonRpcNotification`.
#[verifier::ext_equal]
pub struct JsonRpcNotificationView {
    pub jsonrpc: Seq<char>,
    pub method: Seq<char>,
    pub params: Option<JsonSpec>,
}

impl View for JsonRpcNotification {
    type V = JsonRpcNotificationView;

    open spec fn view(&self) -> JsonRpcNotificationView {
        JsonRpcNotificationView {
            jsonrpc: self.jsonrpc@,
            method: self.method@,
            params: self.params.deep_view(),
        }
    }
}

impl JsonRpcNotification {
    /// Create a new JSON-RPC notification.
    pub fn new(method: String, params: Option<JsonValue>) -> (r: Self)
        ensures
            r@ == (JsonRpcNotificationView {
                jsonrpc: "2.0"@,
                method: method@,
                params: params.deep_view(),
            }),
    {
        JsonRpcNotification { jsonrpc: String::from_str("2.0"), method, params }
    }
}

} // verus!
