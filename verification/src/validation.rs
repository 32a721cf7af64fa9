//! Structural validation of protocol messages and types.
//!
//! Each validator states exactly, over the mathematical views, which
//! values it accepts; it returns a validation error precisely on the
//! rest.

use vstd::prelude::*;

use crate::decode::{
    decode_call_tool_params, decode_create_message_params, decode_initialize_params,
    decode_logging_message_params, decode_read_resource_params, spec_create_message_params,
    spec_initialize_params, spec_logging_message_params, spec_name_and_arguments, spec_uri_param,
};
use crate::error::{McpError, McpResult};
use crate::json::{JsonSpec, JsonValue};
use crate::text::str_eq;
use crate::messages::{
    CallToolParams, CreateMessageParams, CreateMessageParamsView, GetPromptParams,
    InitializeParams, InitializeParamsView, LoggingMessageParams, ReadResourceParams,
    SamplingMessage, SamplingMessageView,
};
use crate::text::{spec_has_substring, str_contains_str, str_starts_with};
use crate::types::{
    ClientCapabilities, Content, ContentView, JsonRpcNotification, JsonRpcNotificationView,
    JsonRpcRequest, JsonRpcRequestView, JsonRpcResponse, JsonRpcResponseView, PromptInfo,
    PromptInfoView, PromptMessage, PromptMessageView, ResourceContent, ResourceContentView,
    ResourceInfo, ResourceInfoView, ServerCapabilities, ToolInfo, ToolInfoView,
};

verus! {

// ===========================================================================
// JSON-RPC framing
// ===========================================================================
/// Whether a raw JSON value is a well-formed JSON-RPC message: an object
/// declaring version "2.0" that is a request or notification (a `method`
/// and no `result`/`error`), or a response (exactly one of `result` and
/// `error`, with an `id`).
pub open spec fn spec_jsonrpc_message_ok(m: JsonSpec) -> bool {
    &&& m is Obj
    &&& crate::json::spec_get(m, "jsonrpc"@) == Some(JsonSpec::Str("2.0"@))
    &&& {
        let has_method = crate::json::spec_get(m, "method"@) is Some;
        let has_result = crate::json::spec_get(m, "result"@) is Some;
        let has_error = crate::json::spec_get(m, "error"@) is Some;
        let has_id = crate::json::spec_get(m, "id"@) is Some;
        if has_method {
            !has_result && !has_error
        } else if has_result || has_error {
            has_id && !(has_result && has_error)
        } else {
            false
        }
    }
}

/// Validates that a JSON-RPC message conforms to the specification.
pub fn validate_jsonrpc_message(message: &JsonValue) -> (r: McpResult<()>)
    ensures
        match r {
            Ok(_) => spec_jsonrpc_message_ok(message@),
            Err(e) => !spec_jsonrpc_message_ok(message@) && e is Validation,
        },
{
    if !message.is_object() {
        return Err(McpError::Validation(String::from_str("Message must be a JSON object")));
    }
    let version_ok = match message.get("jsonrpc") {
        Some(v) => match v.as_str() {
            Some(s) => str_eq(s, "2.0"),
            None => false,
        },
        None => false,
    };
    if !version_ok {
        return Err(McpError::Validation(String::from_str("jsonrpc must be '2.0'")));
    }
    let has_method = message.get("method").is_some();
    let has_result = message.get("result").is_some();
    let has_error = message.get("error").is_some();
    let has_id = message.get("id").is_some();
    if has_method {
        if has_result || has_error {
            return Err(
                McpError::Validation(
                    String::from_str("Request/notification cannot have 'result' or 'error' fields"),
                ),
            );
        }
        Ok(())
    } else if has_result || has_error {
        if !has_id {
            return Err(McpError::Validation(String::from_str("Response must have an 'id' field")));
        }
        if has_result && has_error {
            return Err(
                McpError::Validation(
                    String::from_str("Response cannot have both 'result' and 'error' fields"),
                ),
            );
        }
        Ok(())
    } else {
        Err(
            McpError::Validation(
                String::from_str("Message must be a request, response, or notification"),
            ),
        )
    }
}

/// Whether a request frame is well-formed: version "2.0", a non-empty
/// method name, and no reserved "rpc." prefix (the discovery method
/// excepted).
pub open spec fn spec_jsonrpc_request_ok(r: JsonRpcRequestView) -> bool {
    &&& r.jsonrpc == "2.0"@
    &&& r.method.len() > 0
    &&& !("rpc."@.is_prefix_of(r.method) && !"rpc.discover"@.is_prefix_of(r.method))
}

/// Validates a JSON-RPC request.
pub fn validate_jsonrpc_request(request: &JsonRpcRequest) -> (r: McpResult<()>)
    ensures
        match r {
            Ok(_) => spec_jsonrpc_request_ok(request@),
            Err(e) => !spec_jsonrpc_request_ok(request@) && e is Validation,
        },
{
    if !str_eq(request.jsonrpc.as_str(), "2.0") {
        return Err(McpError::Validation(String::from_str("jsonrpc must be '2.0'")));
    }
    if request.method.as_str().is_empty() {
        return Err(McpError::Validation(String::from_str("Method name cannot be empty")));
    }
    if str_starts_with(request.method.as_str(), "rpc.") && !str_starts_with(
        request.method.as_str(),
        "rpc.discover",
    ) {
        return Err(
            McpError::Validation(
                String::from_str("Method names starting with 'rpc.' are reserved"),
            ),
        );
    }
    Ok(())
}

/// Whether a response frame is well-formed: version "2.0" and exactly
/// one of result and error.
pub open spec fn spec_jsonrpc_response_ok(r: JsonRpcResponseView) -> bool {
    &&& r.jsonrpc == "2.0"@
    &&& (r.result is Some <==> r.error is None)
}

/// Validates a JSON-RPC response.
pub fn validate_jsonrpc_response(response: &JsonRpcResponse) -> (r: McpResult<()>)
    ensures
        match r {
            Ok(_) => spec_jsonrpc_response_ok(response@),
            Err(e) => !spec_jsonrpc_response_ok(response@) && e is Validation,
        },
{
    if !str_eq(response.jsonrpc.as_str(), "2.0") {
        return Err(McpError::Validation(String::from_str("jsonrpc must be '2.0'")));
    }
    match (&response.result, &response.error) {
        (Some(_), Some(_)) => Err(
            McpError::Validation(String::from_str("Response cannot have both result and error")),
        ),
        (None, None) => Err(
            McpError::Validation(String::from_str("Response must have either result or error")),
        ),
        _ => Ok(()),
    }
}

/// Whether a notification frame is well-formed: version "2.0" and a
/// non-empty method name.
pub open spec fn spec_jsonrpc_notification_ok(n: JsonRpcNotificationView) -> bool {
    n.jsonrpc == "2.0"@ && n.method.len() > 0
}

/// Validates a JSON-RPC notification.
pub fn validate_jsonrpc_notification(notification: &JsonRpcNotification) -> (r: McpResult<()>)
    ensures
        match r {
            Ok(_) => spec_jsonrpc_notification_ok(notification@),
            Err(e) => !spec_jsonrpc_notification_ok(notification@) && e is Validation,
        },
{
    if !str_eq(notification.jsonrpc.as_str(), "2.0") {
        return Err(McpError::Validation(String::from_str("jsonrpc must be '2.0'")));
    }
    if notification.method.as_str().is_empty() {
        return Err(McpError::Validation(String::from_str("Method name cannot be empty")));
    }
    Ok(())
}

// ===========================================================================
// Typed parameter validation
// ===========================================================================
/// Whether initialize parameters are acceptable: client name, client
/// version, and protocol version are all non-empty.
pub open spec fn spec_initialize_params_ok(p: InitializeParamsView) -> bool {
    &&& p.client_info.name.len() > 0
    &&& p.client_info.version.len() > 0
    &&& p.protocol_version.len() > 0
}

/// Validates initialization parameters.
pub fn validate_initialize_params(params: &InitializeParams) -> (r: McpResult<()>)
    ensures
        match r {
            Ok(_) => spec_initialize_params_ok(params@),
            Err(e) => !spec_initialize_params_ok(params@) && e is Validation,
        },
{
    if params.client_info.name.as_str().is_empty() {
        return Err(McpError::Validation(String::from_str("Client name cannot be empty")));
    }
    if params.client_info.version.as_str().is_empty() {
        return Err(McpError::Validation(String::from_str("Client version cannot be empty")));
    }
    if params.protocol_version.as_str().is_empty() {
        return Err(McpError::Validation(String::from_str("Protocol version cannot be empty")));
    }
    Ok(())
}

/// Whether tool metadata is acceptable: a non-empty name and an object
/// input schema.
pub open spec fn spec_tool_info_ok(t: ToolInfoView) -> bool {
    t.name.len() > 0 && t.input_schema is Obj
}

/// Validates tool information.
pub fn validate_tool_info(tool: &ToolInfo) -> (r: McpResult<()>)
    ensures
        match r {
            Ok(_) => spec_tool_info_ok(tool@),
            Err(e) => !spec_tool_info_ok(tool@) && e is Validation,
        },
{
    if tool.name.as_str().is_empty() {
        return Err(McpError::Validation(String::from_str("Tool name cannot be empty")));
    }
    if !tool.input_schema.is_object() {
        return Err(
            McpError::Validation(String::from_str("Tool input_schema must be a JSON object")),
        );
    }
    Ok(())
}

/// Validates tool call parameters: the tool name must be non-empty.
pub fn validate_call_tool_params(params: &CallToolParams) -> (r: McpResult<()>)
    ensures
        match r {
            Ok(_) => params@.name.len() > 0,
            Err(e) => params@.name.len() == 0 && e is Validation,
        },
{
    if params.name.as_str().is_empty() {
        return Err(McpError::Validation(String::from_str("Tool name cannot be empty")));
    }
    Ok(())
}

// ===========================================================================
// URIs and resources
// ===========================================================================
/// Whether a URI is acceptable: non-empty, and carrying a scheme or
/// standing as an absolute path.
pub open spec fn spec_uri_ok(u: Seq<char>) -> bool {
    u.len() > 0 && (spec_has_substring(u, "://"@) || u[0] == '/' || "file:"@.is_prefix_of(u))
}

/// Basic URI validation.
pub fn validate_uri(uri: &str) -> (r: McpResult<()>)
    ensures
        match r {
            Ok(_) => spec_uri_ok(uri@),
            Err(e) => !spec_uri_ok(uri@) && e is Validation,
        },
{
    if uri.is_empty() {
        return Err(McpError::Validation(String::from_str("URI cannot be empty")));
    }
    if !str_contains_str(uri, "://") && uri.get_char(0) != '/' && !str_starts_with(uri, "file:") {
        return Err(
            McpError::Validation(
                String::from_str("URI must have a scheme or be an absolute path"),
            ),
        );
    }
    Ok(())
}

/// Whether resource metadata is acceptable: non-empty URI and name, and
/// an acceptable URI.
pub open spec fn spec_resource_info_ok(i: ResourceInfoView) -> bool {
    i.uri.len() > 0 && i.name.len() > 0 && spec_uri_ok(i.uri)
}

/// Validates resource information.
pub fn validate_resource_info(resource: &ResourceInfo) -> (r: McpResult<()>)
    ensures
        match r {
            Ok(_) => spec_resource_info_ok(resource@),
            Err(e) => !spec_resource_info_ok(resource@) && e is Validation,
        },
{
    if resource.uri.as_str().is_empty() {
        return Err(McpError::Validation(String::from_str("Resource URI cannot be empty")));
    }
    if resource.name.as_str().is_empty() {
        return Err(McpError::Validation(String::from_str("Resource name cannot be empty")));
    }
    match validate_uri(resource.uri.as_str()) {
        Ok(_) => Ok(()),
        Err(e) => Err(e),
    }
}

/// Validates resource read parameters: a non-empty, acceptable URI.
pub fn validate_read_resource_params(params: &ReadResourceParams) -> (r: McpResult<()>)
    ensures
        match r {
            Ok(_) => params@.len() > 0 && spec_uri_ok(params@),
            Err(e) => !(params@.len() > 0 && spec_uri_ok(params@)) && e is Validation,
        },
{
    if params.uri.as_str().is_empty() {
        return Err(McpError::Validation(String::from_str("Resource URI cannot be empty")));
    }
    match validate_uri(params.uri.as_str()) {
        Ok(_) => Ok(()),
        Err(e) => Err(e),
    }
}

/// Whether resource content is acceptable: a non-empty URI and exactly
/// one of text and blob.
pub open spec fn spec_resource_content_ok(c: ResourceContentView) -> bool {
    c.uri.len() > 0 && (c.text is Some <==> c.blob is None)
}

/// Validates resource content.
pub fn validate_resource_content(content: &ResourceContent) -> (r: McpResult<()>)
    ensures
        match r {
            Ok(_) => spec_resource_content_ok(content@),
            Err(e) => !spec_resource_content_ok(content@) && e is Validation,
        },
{
    if content.uri.as_str().is_empty() {
        return Err(
            McpError::Validation(String::from_str("Resource content URI cannot be empty")),
        );
    }
    match (&content.text, &content.blob) {
        (Some(_), Some(_)) => Err(
            McpError::Validation(
                String::from_str("Resource content cannot have both text and blob"),
            ),
        ),
        (None, None) => Err(
            McpError::Validation(
                String::from_str("Resource content must have either text or blob"),
            ),
        ),
        _ => Ok(()),
    }
}

// ===========================================================================
// Prompts
// ===========================================================================
/// Whether prompt metadata is acceptable: a non-empty prompt name and,
/// where arguments are declared, a non-empty name for each.
pub open spec fn spec_prompt_info_ok(p: PromptInfoView) -> bool {
    &&& p.name.len() > 0
    &&& match p.arguments {
        Some(args) => forall|i: int| 0 <= i < args.len() ==> (#[trigger] args[i]).name.len() > 0,
        None => true,
    }
}

/// Validates prompt information.
pub fn validate_prompt_info(prompt: &PromptInfo) -> (r: McpResult<()>)
    ensures
        match r {
            Ok(_) => spec_prompt_info_ok(prompt@),
            Err(e) => !spec_prompt_info_ok(prompt@) && e is Validation,
        },
{
    if prompt.name.as_str().is_empty() {
        return Err(McpError::Validation(String::from_str("Prompt name cannot be empty")));
    }
    match &prompt.arguments {
        Some(args) => {
            let mut i: usize = 0;
            while i < args.len()
                invariant
                    i <= args@.len(),
                    prompt.arguments == Some(*args),
                    forall|j: int| 0 <= j < i ==> (#[trigger] args.deep_view()[j]).name.len() > 0,
                decreases args@.len() - i,
            {
                if args[i].name.as_str().is_empty() {
                    proof {
                        assert(args.deep_view()[i as int].name.len() == 0);
                    }
                    return Err(
                        McpError::Validation(
                            String::from_str("Prompt argument name cannot be empty"),
                        ),
                    );
                }
                i += 1;
            }
            Ok(())
        },
        None => Ok(()),
    }
}

/// Validates prompt get parameters: the prompt name must be non-empty.
pub fn validate_get_prompt_params(params: &GetPromptParams) -> (r: McpResult<()>)
    ensures
        match r {
            Ok(_) => params@.name.len() > 0,
            Err(e) => params@.name.len() == 0 && e is Validation,
        },
{
    if params.name.as_str().is_empty() {
        return Err(McpError::Validation(String::from_str("Prompt name cannot be empty")));
    }
    Ok(())
}

/// Whether a message list is acceptable: non-empty, with a non-empty
/// role on every message.
pub open spec fn spec_prompt_messages_ok(msgs: Seq<PromptMessageView>) -> bool {
    msgs.len() > 0 && forall|i: int| 0 <= i < msgs.len() ==> (#[trigger] msgs[i]).role.len() > 0
}

/// Validates prompt messages.
pub fn validate_prompt_messages(messages: &Vec<PromptMessage>) -> (r: McpResult<()>)
    ensures
        match r {
            Ok(_) => spec_prompt_messages_ok(messages.deep_view()),
            Err(e) => !spec_prompt_messages_ok(messages.deep_view()) && e is Validation,
        },
{
    if messages.len() == 0 {
        return Err(
            McpError::Validation(String::from_str("Prompt must have at least one message")),
        );
    }
    let mut i: usize = 0;
    while i < messages.len()
        invariant
            i <= messages@.len(),
            forall|j: int| 0 <= j < i ==> (#[trigger] messages.deep_view()[j]).role.len() > 0,
        decreases messages@.len() - i,
    {
        if messages[i].role.as_str().is_empty() {
            proof {
                assert(messages.deep_view()[i as int].role.len() == 0);
            }
            return Err(McpError::Validation(String::from_str("Message role cannot be empty")));
        }
        i += 1;
    }
    Ok(())
}

/// Whether a sampling conversation is acceptable: non-empty, with a
/// non-empty role on every message.
pub open spec fn spec_sampling_messages_valid(msgs: Seq<SamplingMessageView>) -> bool {
    msgs.len() > 0 && forall|i: int| 0 <= i < msgs.len() ==> (#[trigger] msgs[i]).role.len() > 0
}

/// Validates sampling messages.
pub fn validate_sampling_messages(messages: &Vec<SamplingMessage>) -> (r: McpResult<()>)
    ensures
        match r {
            Ok(_) => spec_sampling_messages_valid(messages.deep_view()),
            Err(e) => !spec_sampling_messages_valid(messages.deep_view()) && e is Validation,
        },
{
    if messages.len() == 0 {
        return Err(
            McpError::Validation(
                String::from_str("Sampling request must have at least one message"),
            ),
        );
    }
    let mut i: usize = 0;
    while i < messages.len()
        invariant
            i <= messages@.len(),
            forall|j: int| 0 <= j < i ==> (#[trigger] messages.deep_view()[j]).role.len() > 0,
        decreases messages@.len() - i,
    {
        if messages[i].role.as_str().is_empty() {
            proof {
                assert(messages.deep_view()[i as int].role.len() == 0);
            }
            return Err(McpError::Validation(String::from_str("Message role cannot be empty")));
        }
        i += 1;
    }
    Ok(())
}

/// Whether create-message parameters are acceptable: an acceptable
/// conversation, and a positive token budget where one is given.  The
/// optional floating-point tuning fields of the wire shape are outside
/// this core's reach and are checked by the embedding application.
pub open spec fn spec_create_message_params_ok(p: CreateMessageParamsView) -> bool {
    &&& spec_sampling_messages_valid(p.messages)
    &&& p.max_tokens != Some(0u32)
}

/// Validates create message parameters.
pub fn validate_create_message_params(params: &CreateMessageParams) -> (r: McpResult<()>)
    ensures
        match r {
            Ok(_) => spec_create_message_params_ok(params@),
            Err(e) => !spec_create_message_params_ok(params@) && e is Validation,
        },
{
    match validate_sampling_messages(&params.messages) {
        Ok(_) => {},
        Err(e) => {
            return Err(e);
        },
    }
    match params.max_tokens {
        Some(n) => {
            if n == 0 {
                return Err(
                    McpError::Validation(String::from_str("max_tokens must be greater than 0")),
                );
            }
        },
        None => {},
    }
    Ok(())
}

// ===========================================================================
// Content and method names
// ===========================================================================
/// Whether a content part is acceptable: non-empty text, or image data
/// with a non-empty MIME type of the image family.
pub open spec fn spec_content_ok(c: ContentView) -> bool {
    match c {
        ContentView::Text { text } => text.len() > 0,
        ContentView::Image { data, mime_type } => data.len() > 0 && mime_type.len() > 0
            && "image/"@.is_prefix_of(mime_type),
    }
}

/// Validates content.
pub fn validate_content(content: &Content) -> (r: McpResult<()>)
    ensures
        match r {
            Ok(_) => spec_content_ok(content@),
            Err(e) => !spec_content_ok(content@) && e is Validation,
        },
{
    match content {
        Content::Text { text } => {
            if text.as_str().is_empty() {
                return Err(McpError::Validation(String::from_str("Text content cannot be empty")));
            }
            Ok(())
        },
        Content::Image { data, mime_type } => {
            if data.as_str().is_empty() {
                return Err(McpError::Validation(String::from_str("Image data cannot be empty")));
            }
            if mime_type.as_str().is_empty() {
                return Err(
                    McpError::Validation(String::from_str("Image MIME type cannot be empty")),
                );
            }
            if !str_starts_with(mime_type.as_str(), "image/") {
                return Err(
                    McpError::Validation(
                        String::from_str("Image MIME type must start with 'image/'"),
                    ),
                );
            }
            Ok(())
        },
    }
}

/// Whether a method name belongs to the MCP catalog.
pub open spec fn spec_known_method(m: Seq<char>) -> bool {
    ||| m == "initialize"@
    ||| m == "ping"@
    ||| m == "tools/list"@
    ||| m == "tools/call"@
    ||| m == "tools/list_changed"@
    ||| m == "resources/list"@
    ||| m == "resources/read"@
    ||| m == "resources/subscribe"@
    ||| m == "resources/unsubscribe"@
    ||| m == "resources/updated"@
    ||| m == "resources/list_changed"@
    ||| m == "prompts/list"@
    ||| m == "prompts/get"@
    ||| m == "prompts/list_changed"@
    ||| m == "sampling/createMessage"@
    ||| m == "logging/setLevel"@
    ||| m == "logging/message"@
    ||| m == "progress"@
}

/// Whether a method name is acceptable: a catalog method, or a custom
/// name namespaced with '/' or '.'.
pub open spec fn spec_method_name_ok(m: Seq<char>) -> bool {
    m.len() > 0 && (spec_known_method(m) || spec_has_substring(m, "/"@) || spec_has_substring(
        m,
        "."@,
    ))
}

/// Whether a method name belongs to the MCP catalog.
pub fn is_known_method(method: &str) -> (r: bool)
    ensures
        r == spec_known_method(method@),
{
    ||| str_eq(method, crate::methods::INITIALIZE)
    ||| str_eq(method, crate::methods::PING)
    ||| str_eq(method, crate::methods::TOOLS_LIST)
    ||| str_eq(method, crate::methods::TOOLS_CALL)
    ||| str_eq(method, crate::methods::TOOLS_LIST_CHANGED)
    ||| str_eq(method, crate::methods::RESOURCES_LIST)
    ||| str_eq(method, crate::methods::RESOURCES_READ)
    ||| str_eq(method, crate::methods::RESOURCES_SUBSCRIBE)
    ||| str_eq(method, crate::methods::RESOURCES_UNSUBSCRIBE)
    ||| str_eq(method, crate::methods::RESOURCES_UPDATED)
    ||| str_eq(method, crate::methods::RESOURCES_LIST_CHANGED)
    ||| str_eq(method, crate::methods::PROMPTS_LIST)
    ||| str_eq(method, crate::methods::PROMPTS_GET)
    ||| str_eq(method, crate::methods::PROMPTS_LIST_CHANGED)
    ||| str_eq(method, crate::methods::SAMPLING_CREATE_MESSAGE)
    ||| str_eq(method, crate::methods::LOGGING_SET_LEVEL)
    ||| str_eq(method, crate::methods::LOGGING_MESSAGE)
    ||| str_eq(method, crate::methods::PROGRESS)
}

/// Validates a method name against the MCP catalog and its naming
/// conventions.
pub fn validate_method_name(method: &str) -> (r: McpResult<()>)
    ensures
        match r {
            Ok(_) => spec_method_name_ok(method@),
            Err(e) => !spec_method_name_ok(method@) && e is Validation,
        },
{
    if method.is_empty() {
        return Err(McpError::Validation(String::from_str("Method name cannot be empty")));
    }
    if is_known_method(method) {
        return Ok(());
    }
    if str_contains_str(method, "/") || str_contains_str(method, ".") {
        return Ok(());
    }
    Err(McpError::Validation(String::from_str("Unknown or invalid method name")))
}

// ===========================================================================
// Capability sets and composite request validation
// ===========================================================================
/// Validates server capabilities.  Every capability structure that
/// exists is currently acceptable.
pub fn validate_server_capabilities(capabilities: &ServerCapabilities) -> (r: McpResult<()>)
    ensures
        r is Ok,
{
    Ok(())
}

/// Validates client capabilities.  Every capability structure that
/// exists is currently acceptable.
pub fn validate_client_capabilities(capabilities: &ClientCapabilities) -> (r: McpResult<()>)
    ensures
        r is Ok,
{
    Ok(())
}

/// Validates logging message parameters: the data member must not be
/// null.
pub fn validate_logging_message_params(params: &LoggingMessageParams) -> (r: McpResult<()>)
    ensures
        match r {
            Ok(_) => !(params@.data is Null),
            Err(e) => params@.data is Null && e is Validation,
        },
{
    if params.data.is_null() {
        return Err(McpError::Validation(String::from_str("Log message data cannot be null")));
    }
    Ok(())
}

/// Whether progress parameters have the structure this core can hold:
/// a non-empty `progressToken` string, a numeric `progress`, and — if
/// a `total` is given — an unsigned 32-bit count.  The range of the
/// progress fraction is floating point, outside this core's reach, and
/// is checked by the embedding application.
pub open spec fn spec_progress_shape_ok(p: JsonSpec) -> bool {
    &&& match crate::decode::spec_member_str(p, "progressToken"@) {
        Some(t) => t.len() > 0,
        None => false,
    }
    &&& match crate::json::spec_get(p, "progress"@) {
        Some(v) => v is Int || v is Num,
        None => false,
    }
    &&& match crate::json::spec_get(p, "total"@) {
        Some(v) => match v {
            JsonSpec::Int(n) => 0 <= n <= u32::MAX,
            _ => false,
        },
        None => true,
    }
}

/// Validates the structure of progress parameters; the floating-point
/// range of the fraction itself is left to the embedding application.
pub fn validate_progress_shape(params: &JsonValue) -> (r: McpResult<()>)
    ensures
        match r {
            Ok(_) => spec_progress_shape_ok(params@),
            Err(e) => !spec_progress_shape_ok(params@) && e is Validation,
        },
{
    let token_ok = match params.get("progressToken") {
        Some(t) => match t.as_str() {
            Some(s) => !s.is_empty(),
            None => false,
        },
        None => false,
    };
    if !token_ok {
        return Err(McpError::Validation(String::from_str("Progress token cannot be empty")));
    }
    let number_ok = match params.get("progress") {
        Some(v) => match v {
            JsonValue::Int(_) => true,
            JsonValue::Num(_) => true,
            _ => false,
        },
        None => false,
    };
    if !number_ok {
        return Err(McpError::Validation(String::from_str("Progress must be a number")));
    }
    let total_ok = match params.get("total") {
        Some(v) => match v {
            JsonValue::Int(n) => 0 <= *n && *n <= u32::MAX as i64,
            _ => false,
        },
        None => true,
    };
    if !total_ok {
        return Err(
            McpError::Validation(String::from_str("total must be an unsigned 32-bit count")),
        );
    }
    Ok(())
}

/// Whether a method name with its raw parameter block makes an
/// acceptable MCP request: the name is acceptable, and where parameters
/// are present they decode and validate for the methods whose shapes
/// this core knows (for progress, the structural part; its range is
/// floating point and is checked by the embedding application); for
/// other methods they need only be an object or null.
pub open spec fn spec_mcp_request_ok(method: Seq<char>, params: Option<JsonSpec>) -> bool {
    &&& spec_method_name_ok(method)
    &&& match params {
        None => true,
        Some(p) => {
            if method == "initialize"@ {
                match spec_initialize_params(p) {
                    Some(ip) => spec_initialize_params_ok(ip),
                    None => false,
                }
            } else if method == "tools/call"@ {
                match spec_name_and_arguments(p) {
                    Some(cp) => cp.name.len() > 0,
                    None => false,
                }
            } else if method == "resources/read"@ {
                match spec_uri_param(p) {
                    Some(u) => u.len() > 0 && spec_uri_ok(u),
                    None => false,
                }
            } else if method == "prompts/get"@ {
                match spec_name_and_arguments(p) {
                    Some(gp) => gp.name.len() > 0,
                    None => false,
                }
            } else if method == "sampling/createMessage"@ {
                match spec_create_message_params(p) {
                    Some(cp) => spec_create_message_params_ok(cp),
                    None => false,
                }
            } else if method == "logging/message"@ {
                match spec_logging_message_params(p) {
                    Some(lp) => !(lp.data is Null),
                    None => false,
                }
            } else if method == "progress"@ {
                spec_progress_shape_ok(p)
            } else {
                p is Obj || p is Null
            }
        },
    }
}

/// Comprehensive validation for any MCP request.
pub fn validate_mcp_request(method: &str, params: Option<&JsonValue>) -> (r: McpResult<()>)
    ensures
        match r {
            Ok(_) => spec_mcp_request_ok(method@, params.deep_view()),
            Err(e) => !spec_mcp_request_ok(method@, params.deep_view()) && e is Validation,
        },
{
    match validate_method_name(method) {
        Ok(_) => {},
        Err(e) => {
            return Err(e);
        },
    }
    match params {
        None => Ok(()),
        Some(p) => {
            if str_eq(method, crate::methods::INITIALIZE) {
                match decode_initialize_params(p) {
                    Ok(ip) => validate_initialize_params(&ip),
                    Err(e) => Err(e),
                }
            } else if str_eq(method, crate::methods::TOOLS_CALL) {
                match decode_call_tool_params(p) {
                    Ok(cp) => validate_call_tool_params(&cp),
                    Err(e) => Err(e),
                }
            } else if str_eq(method, crate::methods::RESOURCES_READ) {
                match decode_read_resource_params(p) {
                    Ok(rp) => validate_read_resource_params(&rp),
                    Err(e) => Err(e),
                }
            } else if str_eq(method, crate::methods::PROMPTS_GET) {
                match crate::decode::decode_get_prompt_params(p) {
                    Ok(gp) => validate_get_prompt_params(&gp),
                    Err(e) => Err(e),
                }
            } else if str_eq(method, crate::methods::SAMPLING_CREATE_MESSAGE) {
                match decode_create_message_params(p) {
                    Ok(cp) => validate_create_message_params(&cp),
                    Err(e) => Err(e),
                }
            } else if str_eq(method, crate::methods::LOGGING_MESSAGE) {
                match decode_logging_message_params(p) {
                    Ok(lp) => validate_logging_message_params(&lp),
                    Err(e) => Err(e),
                }
            } else if str_eq(method, crate::methods::PROGRESS) {
                validate_progress_shape(p)
            } else {
                if p.is_object() || p.is_null() {
                    Ok(())
                } else {
                    Err(
                        McpError::Validation(
                            String::from_str("Parameters must be a JSON object or null"),
                        ),
                    )
                }
            }
        },
    }
}

} // verus!
