//! Typed parameter and result shapes for every method of the MCP catalog,
//! together with the negotiated protocol version constant.
//!
//! Each data-carrying type has a mathematical mirror (its `View`) that
//! contracts throughout the crate speak about.

use vstd::prelude::*;

use crate::json::{JsonMembers, JsonSpec, JsonValue};
use crate::types::{
    ClientCapabilities, ClientInfo, ClientInfoView, Content, ContentView, PromptInfo,
    PromptInfoView, PromptMessage, PromptMessageView, ResourceContent, ResourceContentView,
    ResourceInfo, ResourceInfoView, ServerCapabilities, ServerInfo, ServerInfoView, ToolInfo,
    ToolInfoView,
};

verus! {

/// The protocol version this server speaks.
pub const MCP_PROTOCOL_VERSION: &'static str = "2024-11-05";

// ===========================================================================
// Initialization
// ===========================================================================
/// Parameters for the initialize request.
#[derive(Debug, PartialEq, Eq)]
pub struct InitializeParams {
    /// Information about the client.
    pub client_info: ClientInfo,
    /// Capabilities advertised by the client.
    pub capabilities: ClientCapabilities,
    /// Protocol version being used.
    pub protocol_version: String,
}

/// The mathematical value of an `InitializeParams`.
#[verifier::ext_equal]
pub struct InitializeParamsView {
    pub client_info: ClientInfoView,
    pub capabilities: ClientCapabilities,
    pub protocol_version: Seq<char>,
}

impl View for InitializeParams {
    type V = InitializeParamsView;

    open spec fn view(&self) -> InitializeParamsView {
        InitializeParamsView {
            client_info: self.client_info@,
            capabilities: self.capabilities,
            protocol_version: self.protocol_version@,
        }
    }
}

impl InitializeParams {
    /// Create new initialize parameters.
    pub fn new(
        client_info: ClientInfo,
        capabilities: ClientCapabilities,
        protocol_version: String,
    ) -> (r: Self)
        ensures
            r@ == (InitializeParamsView {
                client_info: client_info@,
                capabilities,
                protocol_version: protocol_version@,
            }),
    {
        InitializeParams { client_info, capabilities, protocol_version }
    }
}

/// Result of the initialize request.
#[derive(Debug, PartialEq, Eq)]
pub struct InitializeResult {
    /// Information about the server.
    pub server_info: ServerInfo,
    /// Capabilities advertised by the server.
    pub capabilities: ServerCapabilities,
    /// Protocol version being used.
    pub protocol_version: String,
}

/// The mathematical value of an `InitializeResult`.
#[verifier::ext_equal]
pub struct InitializeResultView {
    pub server_info: ServerInfoView,
    pub capabilities: ServerCapabilities,
    pub protocol_version: Seq<char>,
}

impl View for InitializeResult {
    type V = InitializeResultView;

    open spec fn view(&self) -> InitializeResultView {
        InitializeResultView {
            server_info: self.server_info@,
            capabilities: self.capabilities,
            protocol_version: self.protocol_version@,
        }
    }
}

impl InitializeResult {
    /// Create new initialize result.
    pub fn new(
        server_info: ServerInfo,
        capabilities: ServerCapabilities,
        protocol_version: String,
    ) -> (r: Self)
        ensures
            r@ == (InitializeResultView {
                server_info: server_info@,
                capabilities,
                protocol_version: protocol_version@,
            }),
    {
        InitializeResult { server_info, capabilities, protocol_version }
    }
}

// ===========================================================================
// Tools
// ===========================================================================
/// Parameters for the tools/list request.
#[derive(Debug, PartialEq, Eq)]
pub struct ListToolsParams {
    /// Optional cursor for pagination.
    pub cursor: Option<String>,
}

impl Default for ListToolsParams {
    /// A request for the first page.
    fn default() -> (r: Self)
        ensures
            r.cursor is None,
    {
        ListToolsParams { cursor: None }
    }
}

/// Result of the tools/list request.
#[derive(Debug, PartialEq, Eq)]
pub struct ListToolsResult {
    /// Available tools.
    pub tools: Vec<ToolInfo>,
    /// Cursor for pagination (if more tools are available).
    pub next_cursor: Option<String>,
}

/// The mathematical value of a `ListToolsResult`.
#[verifier::ext_equal]
pub struct ListToolsResultView {
    pub tools: Seq<ToolInfoView>,
    pub next_cursor: Option<Seq<char>>,
}

impl View for ListToolsResult {
    type V = ListToolsResultView;

    open spec fn view(&self) -> ListToolsResultView {
        ListToolsResultView {
            tools: self.tools.deep_view(),
            next_cursor: self.next_cursor.deep_view(),
        }
    }
}

/// Parameters for the tools/call request.
#[derive(Debug, PartialEq, Eq)]
pub struct CallToolParams {
    /// Name of the tool to call.
    pub name: String,
    /// Arguments to pass to the tool, as JSON object members.
    pub arguments: Option<JsonMembers>,
}

/// The mathematical value of a `CallToolParams`.
#[verifier::ext_equal]
pub struct CallToolParamsView {
    pub name: Seq<char>,
    pub arguments: Option<Seq<(Seq<char>, JsonSpec)>>,
}

impl View for CallToolParams {
    type V = CallToolParamsView;

    open spec fn view(&self) -> CallToolParamsView {
        CallToolParamsView { name: self.name@, arguments: self.arguments.deep_view() }
    }
}

impl CallToolParams {
    /// Create new call tool parameters.
    pub fn new(name: String, arguments: Option<JsonMembers>) -> (r: Self)
        ensures
            r@ == (CallToolParamsView { name: name@, arguments: arguments.deep_view() }),
    {
        CallToolParams { name, arguments }
    }
}

/// Result of the tools/call request.
#[derive(Debug, PartialEq, Eq)]
pub struct CallToolResult {
    /// Content returned by the tool.
    pub content: Vec<Content>,
    /// Whether this result represents an error.
    pub is_error: Option<bool>,
}

/// The mathematical value of a `CallToolResult`.
#[verifier::ext_equal]
pub struct CallToolResultView {
    pub content: Seq<ContentView>,
    pub is_error: Option<bool>,
}

impl View for CallToolResult {
    type V = CallToolResultView;

    open spec fn view(&self) -> CallToolResultView {
        CallToolResultView { content: self.content.deep_view(), is_error: self.is_error }
    }
}

// ===========================================================================
// Resources
// ===========================================================================
/// Parameters for the resources/list request.
#[derive(Debug, PartialEq, Eq)]
pub struct ListResourcesParams {
    /// Optional cursor for pagination.
    pub cursor: Option<String>,
}

impl Default for ListResourcesParams {
    /// A request for the first page.
    fn default() -> (r: Self)
        ensures
            r.cursor is None,
    {
        ListResourcesParams { cursor: None }
    }
}

/// Result of the resources/list request.
#[derive(Debug, PartialEq, Eq)]
pub struct ListResourcesResult {
    /// Available resources.
    pub resources: Vec<ResourceInfo>,
    /// Cursor for pagination (if more resources are available).
    pub next_cursor: Option<String>,
}

/// The mathematical value of a `ListResourcesResult`.
#[verifier::ext_equal]
pub struct ListResourcesResultView {
    pub resources: Seq<ResourceInfoView>,
    pub next_cursor: Option<Seq<char>>,
}

impl View for ListResourcesResult {
    type V = ListResourcesResultView;

    open spec fn view(&self) -> ListResourcesResultView {
        ListResourcesResultView {
            resources: self.resources.deep_view(),
            next_cursor: self.next_cursor.deep_view(),
        }
    }
}

/// Parameters for the resources/read request.
#[derive(Debug, PartialEq, Eq)]
pub struct ReadResourceParams {
    /// URI of the resource to read.
    pub uri: String,
}

impl View for ReadResourceParams {
    type V = Seq<char>;

    open spec fn view(&self) -> Seq<char> {
        self.uri@
    }
}

impl ReadResourceParams {
    /// Create new read resource parameters.
    pub fn new(uri: String) -> (r: Self)
        ensures
            r@ == uri@,
    {
        ReadResourceParams { uri }
    }
}

/// Result of the resources/read request.
#[derive(Debug, PartialEq, Eq)]
pub struct ReadResourceResult {
    /// Contents of the resource.
    pub contents: Vec<ResourceContent>,
}

impl View for ReadResourceResult {
    type V = Seq<ResourceContentView>;

    open spec fn view(&self) -> Seq<ResourceContentView> {
        self.contents.deep_view()
    }
}

/// Parameters for the resources/subscribe request.
#[derive(Debug, PartialEq, Eq)]
pub struct SubscribeResourceParams {
    /// URI of the resource to subscribe to.
    pub uri: String,
}

impl View for SubscribeResourceParams {
    type V = Seq<char>;

    open spec fn view(&self) -> Seq<char> {
        self.uri@
    }
}

/// Result of the resources/subscribe request.
#[derive(Debug, Clone, Copy, PartialEq, Eq)]
pub struct SubscribeResourceResult {}

/// Parameters for the resources/unsubscribe request.
#[derive(Debug, PartialEq, Eq)]
pub struct UnsubscribeResourceParams {
    /// URI of the resource to unsubscribe from.
    pub uri: String,
}

impl View for UnsubscribeResourceParams {
    type V = Seq<char>;

    open spec fn view(&self) -> Seq<char> {
        self.uri@
    }
}

/// Result of the resources/unsubscribe request.
#[derive(Debug, Clone, Copy, PartialEq, Eq)]
pub struct UnsubscribeResourceResult {}

/// Parameters for the resources/updated notification.
#[derive(Debug, PartialEq, Eq)]
pub struct ResourceUpdatedParams {
    /// URI of the resource that was updated.
    pub uri: String,
}

impl View for ResourceUpdatedParams {
    type V = Seq<char>;

    open spec fn view(&self) -> Seq<char> {
        self.uri@
    }
}

/// Parameters for the resources/list_changed notification.
#[derive(Debug, Clone, Copy, PartialEq, Eq)]
pub struct ResourceListChangedParams {}

// ===========================================================================
// Prompts
// ===========================================================================
/// Parameters for the prompts/list request.
#[derive(Debug, PartialEq, Eq)]
pub struct ListPromptsParams {
    /// Optional cursor for pagination.
    pub cursor: Option<String>,
}

impl Default for ListPromptsParams {
    /// A request for the first page.
    fn default() -> (r: Self)
        ensures
            r.cursor is None,
    {
        ListPromptsParams { cursor: None }
    }
}

/// Result of the prompts/list request.
#[derive(Debug, PartialEq, Eq)]
pub struct ListPromptsResult {
    /// Available prompts.
    pub prompts: Vec<PromptInfo>,
    /// Cursor for pagination (if more prompts are available).
    pub next_cursor: Option<String>,
}

/// The mathematical value of a `ListPromptsResult`.
#[verifier::ext_equal]
pub struct ListPromptsResultView {
    pub prompts: Seq<PromptInfoView>,
    pub next_cursor: Option<Seq<char>>,
}

impl View for ListPromptsResult {
    type V = ListPromptsResultView;

    open spec fn view(&self) -> ListPromptsResultView {
        ListPromptsResultView {
            prompts: self.prompts.deep_view(),
            next_cursor: self.next_cursor.deep_view(),
        }
    }
}

/// Parameters for the prompts/get request.
#[derive(Debug, PartialEq, Eq)]
pub struct GetPromptParams {
    /// Name of the prompt to get.
    pub name: String,
    /// Arguments to pass to the prompt, as JSON object members.
    pub arguments: Option<JsonMembers>,
}

/// The mathematical value of a `GetPromptParams`.
#[verifier::ext_equal]
pub struct GetPromptParamsView {
    pub name: Seq<char>,
    pub arguments: Option<Seq<(Seq<char>, JsonSpec)>>,
}

impl View for GetPromptParams {
    type V = GetPromptParamsView;

    open spec fn view(&self) -> GetPromptParamsView {
        GetPromptParamsView { name: self.name@, arguments: self.arguments.deep_view() }
    }
}

impl GetPromptParams {
    /// Create new get prompt parameters.
    pub fn new(name: String, arguments: Option<JsonMembers>) -> (r: Self)
        ensures
            r@ == (GetPromptParamsView { name: name@, arguments: arguments.deep_view() }),
    {
        GetPromptParams { name, arguments }
    }
}

/// Result of the prompts/get request.
#[derive(Debug, PartialEq, Eq)]
pub struct GetPromptResult {
    /// Description of the prompt result.
    pub description: Option<String>,
    /// Messages generated by the prompt.
    pub messages: Vec<PromptMessage>,
}

/// The mathematical value of a `GetPromptResult`.
#[verifier::ext_equal]
pub struct GetPromptResultView {
    pub description: Option<Seq<char>>,
    pub messages: Seq<PromptMessageView>,
}

impl View for GetPromptResult {
    type V = GetPromptResultView;

    open spec fn view(&self) -> GetPromptResultView {
        GetPromptResultView {
            description: self.description.deep_view(),
            messages: self.messages.deep_view(),
        }
    }
}

/// Parameters for the prompts/list_changed notification.
#[derive(Debug, Clone, Copy, PartialEq, Eq)]
pub struct PromptListChangedParams {}

// ===========================================================================
// Sampling
// ===========================================================================
/// Content for sampling messages.
#[derive(Debug, PartialEq, Eq)]
pub enum SamplingContent {
    /// Simple text content.
    Text(String),
    /// Complex content with multiple parts.
    Complex(Vec<Content>),
}

/// The mathematical value of a `SamplingContent`.
#[verifier::ext_equal]
pub enum SamplingContentView {
    Text(Seq<char>),
    Complex(Seq<ContentView>),
}

impl View for SamplingContent {
    type V = SamplingContentView;

    open spec fn view(&self) -> SamplingContentView {
        match self {
            SamplingContent::Text(s) => SamplingContentView::Text(s@),
            SamplingContent::Complex(parts) => SamplingContentView::Complex(parts.deep_view()),
        }
    }
}

impl DeepView for SamplingContent {
    type V = SamplingContentView;

    open spec fn deep_view(&self) -> SamplingContentView {
        self.view()
    }
}

/// A message in a sampling conversation.
#[derive(Debug, PartialEq, Eq)]
pub struct SamplingMessage {
    /// Role of the message (e.g., "user", "assistant").
    pub role: String,
    /// Content of the message.
    pub content: SamplingContent,
}

/// The mathematical value of a `SamplingMessage`.
#[verifier::ext_equal]
pub struct SamplingMessageView {
    pub role: Seq<char>,
    pub content: SamplingContentView,
}

impl View for SamplingMessage {
    type V = SamplingMessageView;

    open spec fn view(&self) -> SamplingMessageView {
        SamplingMessageView { role: self.role@, content: self.content@ }
    }
}

impl DeepView for SamplingMessage {
    type V = SamplingMessageView;

    open spec fn deep_view(&self) -> SamplingMessageView {
        self.view()
    }
}

impl SamplingMessage {
    /// Create a user message.
    pub fn user(content: String) -> (r: Self)
        ensures
            r@ == (SamplingMessageView {
                role: "user"@,
                content: SamplingContentView::Text(content@),
            }),
    {
        SamplingMessage { role: String::from_str("user"), content: SamplingContent::Text(content) }
    }

    /// Create an assistant message.
    pub fn assistant(content: String) -> (r: Self)
        ensures
            r@ == (SamplingMessageView {
                role: "assistant"@,
                content: SamplingContentView::Text(content@),
            }),
    {
        SamplingMessage {
            role: String::from_str("assistant"),
            content: SamplingContent::Text(content),
        }
    }

    /// Create a system message.
    pub fn system(content: String) -> (r: Self)
        ensures
            r@ == (SamplingMessageView {
                role: "system"@,
                content: SamplingContentView::Text(content@),
            }),
    {
        SamplingMessage {
            role: String::from_str("system"),
            content: SamplingContent::Text(content),
        }
    }

    /// Create a message with complex content.
    pub fn with_content(role: String, content: Vec<Content>) -> (r: Self)
        ensures
            r@ == (SamplingMessageView {
                role: role@,
                content: SamplingContentView::Complex(content.deep_view()),
            }),
    {
        SamplingMessage { role, content: SamplingContent::Complex(content) }
    }
}

/// Parameters for the sampling/createMessage request.
///
/// The optional floating-point tuning fields of the wire shape
/// (model preferences, temperature, nucleus size) are outside this
/// core's reach and are handled by the embedding application.
#[derive(Debug, PartialEq, Eq)]
pub struct CreateMessageParams {
    /// Messages to include in the conversation.
    pub messages: Vec<SamplingMessage>,
    /// System prompt.
    pub system_prompt: Option<String>,
    /// Whether to include context from the current session.
    pub include_context: Option<String>,
    /// Maximum number of tokens to generate.
    pub max_tokens: Option<u32>,
    /// Stop sequences.
    pub stop_sequences: Option<Vec<String>>,
    /// Metadata to include with the request, as JSON object members.
    pub metadata: Option<JsonMembers>,
}

/// The mathematical value of a `CreateMessageParams`.
#[verifier::ext_equal]
pub struct CreateMessageParamsView {
    pub messages: Seq<SamplingMessageView>,
    pub system_prompt: Option<Seq<char>>,
    pub include_context: Option<Seq<char>>,
    pub max_tokens: Option<u32>,
    pub stop_sequences: Option<Seq<Seq<char>>>,
    pub metadata: Option<Seq<(Seq<char>, JsonSpec)>>,
}

impl View for CreateMessageParams {
    type V = CreateMessageParamsView;

    open spec fn view(&self) -> CreateMessageParamsView {
        CreateMessageParamsView {
            messages: self.messages.deep_view(),
            system_prompt: self.system_prompt.deep_view(),
            include_context: self.include_context.deep_view(),
            max_tokens: self.max_tokens,
            stop_sequences: self.stop_sequences.deep_view(),
            metadata: self.metadata.deep_view(),
        }
    }
}

/// Result of the sampling/createMessage request.
#[derive(Debug, PartialEq, Eq)]
pub struct CreateMessageResult {
    /// Role of the generated message.
    pub role: String,
    /// Content of the generated message.
    pub content: SamplingContent,
    /// Model used for generation.
    pub model: String,
    /// Stop reason.
    pub stop_reason: Option<String>,
}

/// The mathematical value of a `CreateMessageResult`.
#[verifier::ext_equal]
pub struct CreateMessageResultView {
    pub role: Seq<char>,
    pub content: SamplingContentView,
    pub model: Seq<char>,
    pub stop_reason: Option<Seq<char>>,
}

impl View for CreateMessageResult {
    type V = CreateMessageResultView;

    open spec fn view(&self) -> CreateMessageResultView {
        CreateMessageResultView {
            role: self.role@,
            content: self.content@,
            model: self.model@,
            stop_reason: self.stop_reason.deep_view(),
        }
    }
}

// ===========================================================================
// Notifications, ping, logging
// ===========================================================================
/// Parameters for the tools/list_changed notification.
#[derive(Debug, Clone, Copy, PartialEq, Eq)]
pub struct ToolListChangedParams {}

/// Parameters for the ping request (no parameters).
#[derive(Debug, Clone, Copy, PartialEq, Eq)]
pub struct PingParams {}

/// Result of the ping request (no result).
#[derive(Debug, Clone, Copy, PartialEq, Eq)]
pub struct PingResult {}

/// Logging level enumeration.
#[derive(Debug, Clone, Copy, PartialEq, Eq)]
pub enum LoggingLevel {
    Debug,
    Info,
    Notice,
    Warning,
    Error,
    Critical,
    Alert,
    Emergency,
}

/// Parameters for the logging/setLevel request.
#[derive(Debug, Clone, Copy, PartialEq, Eq)]
pub struct SetLoggingLevelParams {
    /// The logging level to set.
    pub level: LoggingLevel,
}

/// Result of the logging/setLevel request.
#[derive(Debug, Clone, Copy, PartialEq, Eq)]
pub struct SetLoggingLevelResult {}

/// Parameters for the logging/message notification.
#[derive(Debug, PartialEq, Eq)]
pub struct LoggingMessageParams {
    /// The logging level.
    pub level: LoggingLevel,
    /// The logger name.
    pub logger: Option<String>,
    /// The log message data.
    pub data: JsonValue,
}

/// The mathematical value of a `LoggingMessageParams`.
#[verifier::ext_equal]
pub struct LoggingMessageParamsView {
    pub level: LoggingLevel,
    pub logger: Option<Seq<char>>,
    pub data: JsonSpec,
}

impl View for LoggingMessageParams {
    type V = LoggingMessageParamsView;

    open spec fn view(&self) -> LoggingMessageParamsView {
        LoggingMessageParamsView {
            level: self.level,
            logger: self.logger.deep_view(),
            data: self.data@,
        }
    }
}

} // verus!
