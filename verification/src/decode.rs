//! Decoding of raw JSON parameter blocks into the typed shapes of the
//! method catalog.
//!
//! Each decoder has a mathematical mirror (`spec_*`) stating exactly
//! which JSON values decode and to what; a decoder returns a validation
//! error precisely on the values its mirror rejects.  Members that a
//! shape does not know are ignored, as the wire contract asks.

use vstd::prelude::*;

use crate::dup::DeepClone;
use crate::error::McpError;
use crate::json::{spec_get, JsonSpec, JsonValue};
use crate::messages::{
    CallToolParams, CallToolParamsView, CreateMessageParams, CreateMessageParamsView,
    GetPromptParams, InitializeParams, InitializeParamsView, LoggingLevel, LoggingMessageParams,
    LoggingMessageParamsView, ReadResourceParams, SamplingContent, SamplingContentView,
    SamplingMessage, SamplingMessageView, SetLoggingLevelParams, SubscribeResourceParams,
    UnsubscribeResourceParams,
};
use crate::types::{
    ClientCapabilities, ClientInfo, ClientInfoView, Content, ContentView, SamplingCapability,
};

verus! {

// ===========================================================================
// Small shared shapes
// ===========================================================================
/// The string bound to `key` in `p`, if there is one.
pub open spec fn spec_member_str(p: JsonSpec, key: Seq<char>) -> Option<Seq<char>> {
    match spec_get(p, key) {
        Some(JsonSpec::Str(s)) => Some(s),
        _ => None,
    }
}

/// The string bound to `key`, as an owned copy.
fn member_str(v: &JsonValue, key: &str) -> (r: Option<String>)
    ensures
        match r {
            Some(s) => spec_member_str(v@, key@) == Some(s@),
            None => spec_member_str(v@, key@) is None,
        },
{
    match v.get(key) {
        Some(m) => match m.as_str() {
            Some(s) => Some(String::from_str(s)),
            None => None,
        },
        None => None,
    }
}

// ===========================================================================
// Frame classification
// ===========================================================================
/// One decoded inbound frame: a request, to be answered under its id,
/// or a notification, which no answer can reach.
#[derive(Debug, PartialEq, Eq)]
pub enum IncomingMessage {
    /// A request: it carries an id.
    Request(crate::types::JsonRpcRequest),
    /// A notification: it carries none.
    Notification(crate::types::JsonRpcNotification),
}

/// Split a raw inbound frame into a request or a notification.  The
/// frame must be a well-formed JSON-RPC message whose `method` member
/// is a string; a response frame is refused, since this server role
/// issues no requests for one to answer.
pub fn decode_frame(v: &JsonValue) -> (r: Result<IncomingMessage, McpError>)
    ensures
        match r {
            Ok(msg) => {
                &&& crate::validation::spec_jsonrpc_message_ok(v@)
                &&& match msg {
                    IncomingMessage::Request(req) => {
                        &&& req.jsonrpc@ == "2.0"@
                        &&& spec_member_str(v@, "method"@) == Some(req.method@)
                        &&& spec_get(v@, "id"@) == Some(req.id@)
                        &&& req.params.deep_view() == spec_get(v@, "params"@)
                    },
                    IncomingMessage::Notification(n) => {
                        &&& n.jsonrpc@ == "2.0"@
                        &&& spec_member_str(v@, "method"@) == Some(n.method@)
                        &&& spec_get(v@, "id"@) is None
                        &&& n.params.deep_view() == spec_get(v@, "params"@)
                    },
                }
            },
            Err(e) => {
                &&& !crate::validation::spec_jsonrpc_message_ok(v@) || spec_member_str(
                    v@,
                    "method"@,
                ) is None
                &&& e is Validation
            },
        },
{
    match crate::validation::validate_jsonrpc_message(v) {
        Ok(_) => (),
        Err(e) => {
            return Err(e);
        },
    }
    let method = match member_str(v, "method") {
        Some(m) => m,
        None => {
            return Err(
                McpError::Validation(
                    String::from_str("inbound responses are not routed by this server role"),
                ),
            );
        },
    };
    let params = match v.get("params") {
        Some(p) => Some(p.deep_clone()),
        None => None,
    };
    match v.get("id") {
        Some(id) => Ok(
            IncomingMessage::Request(
                crate::types::JsonRpcRequest::new(id.deep_clone(), method, params),
            ),
        ),
        None => Ok(
            IncomingMessage::Notification(crate::types::JsonRpcNotification::new(method, params)),
        ),
    }
}

// ===========================================================================
// initialize
// ===========================================================================
/// The client capability set a JSON value declares, if well-formed.
pub open spec fn spec_client_capabilities(v: JsonSpec) -> Option<ClientCapabilities> {
    if !(v is Obj) {
        None
    } else {
        match spec_get(v, "sampling"@) {
            Some(s) => if s is Obj {
                Some(ClientCapabilities { sampling: Some(SamplingCapability {  }) })
            } else {
                None
            },
            None => Some(ClientCapabilities { sampling: None }),
        }
    }
}

/// The initialize parameters a JSON value carries, if well-formed: a
/// `clientInfo` object with `name` and `version` strings, a
/// `capabilities` object, and a `protocolVersion` string.
pub open spec fn spec_initialize_params(p: JsonSpec) -> Option<InitializeParamsView> {
    match (spec_get(p, "clientInfo"@), spec_get(p, "capabilities"@)) {
        (Some(ci), Some(caps)) => {
            match (
                spec_member_str(ci, "name"@),
                spec_member_str(ci, "version"@),
                spec_client_capabilities(caps),
                spec_member_str(p, "protocolVersion"@),
            ) {
                (Some(n), Some(ver), Some(c), Some(pv)) => Some(
                    InitializeParamsView {
                        client_info: ClientInfoView { name: n, version: ver },
                        capabilities: c,
                        protocol_version: pv,
                    },
                ),
                _ => None,
            }
        },
        _ => None,
    }
}

/// Decode initialize parameters.
pub fn decode_initialize_params(v: &JsonValue) -> (r: Result<InitializeParams, McpError>)
    ensures
        match r {
            Ok(p) => spec_initialize_params(v@) == Some(p@),
            Err(e) => spec_initialize_params(v@) is None && e is Validation,
        },
{
    let client_info = match v.get("clientInfo") {
        Some(ci) => {
            let name = match member_str(ci, "name") {
                Some(s) => s,
                None => {
                    return Err(
                        McpError::Validation(
                            String::from_str("clientInfo must carry a name string"),
                        ),
                    );
                },
            };
            let version = match member_str(ci, "version") {
                Some(s) => s,
                None => {
                    return Err(
                        McpError::Validation(
                            String::from_str("clientInfo must carry a version string"),
                        ),
                    );
                },
            };
            ClientInfo { name, version }
        },
        None => {
            return Err(McpError::Validation(String::from_str("missing clientInfo")));
        },
    };
    let capabilities = match v.get("capabilities") {
        Some(caps) => {
            if !caps.is_object() {
                return Err(McpError::Validation(String::from_str("capabilities must be an object")));
            }
            match caps.get("sampling") {
                Some(s) => {
                    if s.is_object() {
                        ClientCapabilities { sampling: Some(SamplingCapability {  }) }
                    } else {
                        return Err(
                            McpError::Validation(String::from_str("sampling must be an object")),
                        );
                    }
                },
                None => ClientCapabilities { sampling: None },
            }
        },
        None => {
            return Err(McpError::Validation(String::from_str("missing capabilities")));
        },
    };
    let protocol_version = match member_str(v, "protocolVersion") {
        Some(s) => s,
        None => {
            return Err(
                McpError::Validation(String::from_str("missing protocolVersion string")),
            );
        },
    };
    Ok(InitializeParams { client_info, capabilities, protocol_version })
}

// ===========================================================================
// tools/call and prompts/get
// ===========================================================================
/// The name/arguments pair a JSON value carries, if well-formed: a
/// `name` string and an optional `arguments` object.
pub open spec fn spec_name_and_arguments(p: JsonSpec) -> Option<CallToolParamsView> {
    match spec_member_str(p, "name"@) {
        Some(n) => match spec_get(p, "arguments"@) {
            Some(JsonSpec::Obj(members)) => Some(
                CallToolParamsView { name: n, arguments: Some(members) },
            ),
            Some(_) => None,
            None => Some(CallToolParamsView { name: n, arguments: None }),
        },
        None => None,
    }
}

/// Decode tool call parameters.
pub fn decode_call_tool_params(v: &JsonValue) -> (r: Result<CallToolParams, McpError>)
    ensures
        match r {
            Ok(p) => spec_name_and_arguments(v@) == Some(p@),
            Err(e) => spec_name_and_arguments(v@) is None && e is Validation,
        },
{
    let name = match member_str(v, "name") {
        Some(s) => s,
        None => {
            return Err(McpError::Validation(String::from_str("missing name string")));
        },
    };
    let arguments = match v.get("arguments") {
        Some(a) => match a {
            JsonValue::Obj(members) => Some(members.deep_clone()),
            _ => {
                return Err(McpError::Validation(String::from_str("arguments must be an object")));
            },
        },
        None => None,
    };
    Ok(CallToolParams { name, arguments })
}

/// Decode prompt get parameters: the same name/arguments shape as a
/// tool call.
pub fn decode_get_prompt_params(v: &JsonValue) -> (r: Result<GetPromptParams, McpError>)
    ensures
        match r {
            Ok(p) => spec_name_and_arguments(v@) == Some(
                CallToolParamsView { name: p@.name, arguments: p@.arguments },
            ),
            Err(e) => spec_name_and_arguments(v@) is None && e is Validation,
        },
{
    match decode_call_tool_params(v) {
        Ok(cp) => {
            let crate::messages::CallToolParams { name, arguments } = cp;
            Ok(GetPromptParams { name, arguments })
        },
        Err(e) => Err(e),
    }
}

// ===========================================================================
// resources/read, resources/subscribe, resources/unsubscribe
// ===========================================================================
/// The `uri` string a JSON value carries, if there is one.
pub open spec fn spec_uri_param(p: JsonSpec) -> Option<Seq<char>> {
    spec_member_str(p, "uri"@)
}

/// Decode read resource parameters.
pub fn decode_read_resource_params(v: &JsonValue) -> (r: Result<ReadResourceParams, McpError>)
    ensures
        match r {
            Ok(p) => spec_uri_param(v@) == Some(p@),
            Err(e) => spec_uri_param(v@) is None && e is Validation,
        },
{
    match member_str(v, "uri") {
        Some(uri) => Ok(ReadResourceParams { uri }),
        None => Err(McpError::Validation(String::from_str("missing uri string"))),
    }
}

/// Decode subscribe parameters.
pub fn decode_subscribe_params(v: &JsonValue) -> (r: Result<SubscribeResourceParams, McpError>)
    ensures
        match r {
            Ok(p) => spec_uri_param(v@) == Some(p@),
            Err(e) => spec_uri_param(v@) is None && e is Validation,
        },
{
    match member_str(v, "uri") {
        Some(uri) => Ok(SubscribeResourceParams { uri }),
        None => Err(McpError::Validation(String::from_str("missing uri string"))),
    }
}

/// Decode unsubscribe parameters.
pub fn decode_unsubscribe_params(v: &JsonValue) -> (r: Result<
    UnsubscribeResourceParams,
    McpError,
>)
    ensures
        match r {
            Ok(p) => spec_uri_param(v@) == Some(p@),
            Err(e) => spec_uri_param(v@) is None && e is Validation,
        },
{
    match member_str(v, "uri") {
        Some(uri) => Ok(UnsubscribeResourceParams { uri }),
        None => Err(McpError::Validation(String::from_str("missing uri string"))),
    }
}

// ===========================================================================
// list pagination cursor
// ===========================================================================
/// The optional `cursor` string a list request carries: `None` if the
/// shape is malformed, `Some(cursor)` otherwise.
pub open spec fn spec_cursor_param(p: Option<JsonSpec>) -> Option<Option<Seq<char>>> {
    match p {
        None => Some(None),
        Some(v) => match spec_get(v, "cursor"@) {
            Some(JsonSpec::Str(c)) => Some(Some(c)),
            Some(_) => None,
            None => if v is Obj {
                Some(None)
            } else {
                None
            },
        },
    }
}

/// Decode the pagination cursor of a list request.  Absent parameters
/// mean the first page.
pub fn decode_cursor_param(params: Option<&JsonValue>) -> (r: Result<Option<String>, McpError>)
    ensures
        match r {
            Ok(c) => spec_cursor_param(params.deep_view()) == Some(c.deep_view()),
            Err(e) => spec_cursor_param(params.deep_view()) is None && e is Validation,
        },
{
    match params {
        None => Ok(None),
        Some(v) => {
            if !v.is_object() {
                return Err(McpError::Validation(String::from_str("params must be an object")));
            }
            match v.get("cursor") {
                Some(c) => match c.as_str() {
                    Some(s) => Ok(Some(String::from_str(s))),
                    None => Err(McpError::Validation(String::from_str("cursor must be a string"))),
                },
                None => Ok(None),
            }
        },
    }
}

// ===========================================================================
// logging
// ===========================================================================
/// The logging level a string names, if any.
pub open spec fn spec_logging_level(s: Seq<char>) -> Option<LoggingLevel> {
    if s == "debug"@ {
        Some(LoggingLevel::Debug)
    } else if s == "info"@ {
        Some(LoggingLevel::Info)
    } else if s == "notice"@ {
        Some(LoggingLevel::Notice)
    } else if s == "warning"@ {
        Some(LoggingLevel::Warning)
    } else if s == "error"@ {
        Some(LoggingLevel::Error)
    } else if s == "critical"@ {
        Some(LoggingLevel::Critical)
    } else if s == "alert"@ {
        Some(LoggingLevel::Alert)
    } else if s == "emergency"@ {
        Some(LoggingLevel::Emergency)
    } else {
        None
    }
}

/// Parse a logging level name.
pub fn parse_logging_level(s: &str) -> (r: Option<LoggingLevel>)
    ensures
        r == spec_logging_level(s@),
{
    if crate::text::str_eq(s, "debug") {
        Some(LoggingLevel::Debug)
    } else if crate::text::str_eq(s, "info") {
        Some(LoggingLevel::Info)
    } else if crate::text::str_eq(s, "notice") {
        Some(LoggingLevel::Notice)
    } else if crate::text::str_eq(s, "warning") {
        Some(LoggingLevel::Warning)
    } else if crate::text::str_eq(s, "error") {
        Some(LoggingLevel::Error)
    } else if crate::text::str_eq(s, "critical") {
        Some(LoggingLevel::Critical)
    } else if crate::text::str_eq(s, "alert") {
        Some(LoggingLevel::Alert)
    } else if crate::text::str_eq(s, "emergency") {
        Some(LoggingLevel::Emergency)
    } else {
        None
    }
}

/// The set-level parameters a JSON value carries, if well-formed: a
/// `level` string naming a logging level.
pub open spec fn spec_set_level_params(p: JsonSpec) -> Option<LoggingLevel> {
    match spec_member_str(p, "level"@) {
        Some(s) => spec_logging_level(s),
        None => None,
    }
}

/// Decode set-level parameters.
pub fn decode_set_level_params(v: &JsonValue) -> (r: Result<SetLoggingLevelParams, McpError>)
    ensures
        match r {
            Ok(p) => spec_set_level_params(v@) == Some(p.level),
            Err(e) => spec_set_level_params(v@) is None && e is Validation,
        },
{
    match v.get("level") {
        Some(l) => match l.as_str() {
            Some(s) => match parse_logging_level(s) {
                Some(level) => Ok(SetLoggingLevelParams { level }),
                None => Err(McpError::Validation(String::from_str("unknown logging level"))),
            },
            None => Err(McpError::Validation(String::from_str("level must be a string"))),
        },
        None => Err(McpError::Validation(String::from_str("missing level"))),
    }
}

/// The logging message parameters a JSON value carries, if well-formed:
/// a `level` string naming a level, an optional `logger` string, and a
/// mandatory `data` member.
pub open spec fn spec_logging_message_params(p: JsonSpec) -> Option<LoggingMessageParamsView> {
    match (spec_member_str(p, "level"@), spec_get(p, "data"@)) {
        (Some(l), Some(data)) => match spec_logging_level(l) {
            Some(level) => match spec_get(p, "logger"@) {
                Some(JsonSpec::Str(name)) => Some(
                    LoggingMessageParamsView { level, logger: Some(name), data },
                ),
                Some(_) => None,
                None => Some(LoggingMessageParamsView { level, logger: None, data }),
            },
            None => None,
        },
        _ => None,
    }
}

/// Decode logging message parameters.
pub fn decode_logging_message_params(v: &JsonValue) -> (r: Result<LoggingMessageParams, McpError>)
    ensures
        match r {
            Ok(p) => spec_logging_message_params(v@) == Some(p@),
            Err(e) => spec_logging_message_params(v@) is None && e is Validation,
        },
{
    let level = match v.get("level") {
        Some(l) => match l.as_str() {
            Some(s) => match parse_logging_level(s) {
                Some(level) => level,
                None => {
                    return Err(McpError::Validation(String::from_str("unknown logging level")));
                },
            },
            None => {
                return Err(McpError::Validation(String::from_str("level must be a string")));
            },
        },
        None => {
            return Err(McpError::Validation(String::from_str("missing level")));
        },
    };
    let logger = match v.get("logger") {
        Some(l) => match l.as_str() {
            Some(s) => Some(String::from_str(s)),
            None => {
                return Err(McpError::Validation(String::from_str("logger must be a string")));
            },
        },
        None => None,
    };
    let data = match v.get("data") {
        Some(d) => d.deep_clone(),
        None => {
            return Err(McpError::Validation(String::from_str("missing data")));
        },
    };
    Ok(LoggingMessageParams { level, logger, data })
}

// ===========================================================================
// sampling/createMessage
// ===========================================================================
/// The content part a JSON value carries, if well-formed: a tagged
/// object that is either text or an image.
pub open spec fn spec_content(v: JsonSpec) -> Option<ContentView> {
    match spec_member_str(v, "type"@) {
        Some(t) => if t == "text"@ {
            match spec_member_str(v, "text"@) {
                Some(s) => Some(ContentView::Text { text: s }),
                None => None,
            }
        } else if t == "image"@ {
            match (spec_member_str(v, "data"@), spec_member_str(v, "mimeType"@)) {
                (Some(d), Some(m)) => Some(ContentView::Image { data: d, mime_type: m }),
                _ => None,
            }
        } else {
            None
        },
        None => None,
    }
}

/// Whether every item of a list is a well-formed content part.
pub open spec fn spec_content_list_ok(items: Seq<JsonSpec>) -> bool {
    forall|i: int| 0 <= i < items.len() ==> spec_content(#[trigger] items[i]) is Some
}

/// The content parts of a list whose items are all well-formed.
pub open spec fn spec_content_list(items: Seq<JsonSpec>) -> Seq<ContentView> {
    Seq::new(items.len(), |i: int| spec_content(items[i])->0)
}

/// Decode one content part.
pub fn decode_content(v: &JsonValue) -> (r: Result<Content, McpError>)
    ensures
        match r {
            Ok(c) => spec_content(v@) == Some(c@),
            Err(e) => spec_content(v@) is None && e is Validation,
        },
{
    let kind = match member_str(v, "type") {
        Some(t) => t,
        None => {
            return Err(McpError::Validation(String::from_str("content must carry a type string")));
        },
    };
    if crate::text::str_eq(kind.as_str(), "text") {
        match member_str(v, "text") {
            Some(text) => Ok(Content::Text { text }),
            None => Err(McpError::Validation(String::from_str("text content must carry text"))),
        }
    } else if crate::text::str_eq(kind.as_str(), "image") {
        let data = match member_str(v, "data") {
            Some(d) => d,
            None => {
                return Err(
                    McpError::Validation(String::from_str("image content must carry data")),
                );
            },
        };
        match member_str(v, "mimeType") {
            Some(mime_type) => Ok(Content::Image { data, mime_type }),
            None => Err(
                McpError::Validation(String::from_str("image content must carry a mimeType")),
            ),
        }
    } else {
        Err(McpError::Validation(String::from_str("unknown content type")))
    }
}

/// Decode a list of content parts.
pub fn decode_content_list(items: &Vec<JsonValue>) -> (r: Result<Vec<Content>, McpError>)
    ensures
        match r {
            Ok(list) => spec_content_list_ok(items.deep_view()) && list.deep_view()
                == spec_content_list(items.deep_view()),
            Err(e) => !spec_content_list_ok(items.deep_view()) && e is Validation,
        },
{
    let mut out: Vec<Content> = Vec::new();
    let mut i: usize = 0;
    while i < items.len()
        invariant
            i <= items@.len(),
            out@.len() == i as nat,
            forall|j: int| 0 <= j < i ==> spec_content(items.deep_view()[j]) is Some,
            forall|j: int| 0 <= j < i ==> (#[trigger] out@[j]).deep_view() == spec_content(
                items.deep_view()[j],
            )->0,
        decreases items@.len() - i,
    {
        match decode_content(&items[i]) {
            Ok(c) => {
                out.push(c);
            },
            Err(e) => {
                proof {
                    assert(spec_content(items.deep_view()[i as int]) is None);
                }
                return Err(e);
            },
        }
        i += 1;
    }
    proof {
        assert(out.deep_view() =~= spec_content_list(items.deep_view()));
    }
    Ok(out)
}

/// The sampling content a JSON value carries, if well-formed: a bare
/// string, or a list of content parts.
pub open spec fn spec_sampling_content(v: JsonSpec) -> Option<SamplingContentView> {
    match v {
        JsonSpec::Str(s) => Some(SamplingContentView::Text(s)),
        JsonSpec::Arr(items) => if spec_content_list_ok(items) {
            Some(SamplingContentView::Complex(spec_content_list(items)))
        } else {
            None
        },
        _ => None,
    }
}

/// Decode sampling content.
pub fn decode_sampling_content(v: &JsonValue) -> (r: Result<SamplingContent, McpError>)
    ensures
        match r {
            Ok(c) => spec_sampling_content(v@) == Some(c@),
            Err(e) => spec_sampling_content(v@) is None && e is Validation,
        },
{
    match v {
        JsonValue::Str(s) => Ok(SamplingContent::Text(s.clone())),
        JsonValue::Arr(items) => {
            proof {
                crate::json::lemma_arr_view(*items);
            }
            match decode_content_list(items) {
                Ok(list) => Ok(SamplingContent::Complex(list)),
                Err(e) => Err(e),
            }
        },
        _ => Err(McpError::Validation(String::from_str("content must be a string or a list"))),
    }
}

/// The sampling message a JSON value carries, if well-formed: a `role`
/// string and sampling content.
pub open spec fn spec_sampling_message(v: JsonSpec) -> Option<SamplingMessageView> {
    match (spec_member_str(v, "role"@), spec_get(v, "content"@)) {
        (Some(role), Some(c)) => match spec_sampling_content(c) {
            Some(content) => Some(SamplingMessageView { role, content }),
            None => None,
        },
        _ => None,
    }
}

/// Whether every item of a list is a well-formed sampling message.
pub open spec fn spec_sampling_messages_ok(items: Seq<JsonSpec>) -> bool {
    forall|i: int| 0 <= i < items.len() ==> spec_sampling_message(#[trigger] items[i]) is Some
}

/// The sampling messages of a list whose items are all well-formed.
pub open spec fn spec_sampling_messages(items: Seq<JsonSpec>) -> Seq<SamplingMessageView> {
    Seq::new(items.len(), |i: int| spec_sampling_message(items[i])->0)
}

/// Decode one sampling message.
pub fn decode_sampling_message(v: &JsonValue) -> (r: Result<SamplingMessage, McpError>)
    ensures
        match r {
            Ok(m) => spec_sampling_message(v@) == Some(m@),
            Err(e) => spec_sampling_message(v@) is None && e is Validation,
        },
{
    let role = match member_str(v, "role") {
        Some(s) => s,
        None => {
            return Err(McpError::Validation(String::from_str("message must carry a role string")));
        },
    };
    match v.get("content") {
        Some(c) => match decode_sampling_content(c) {
            Ok(content) => Ok(SamplingMessage { role, content }),
            Err(e) => Err(e),
        },
        None => Err(McpError::Validation(String::from_str("message must carry content"))),
    }
}

/// The optional string bound to `key`: malformed if present and not a
/// string.
pub open spec fn spec_opt_member_str(p: JsonSpec, key: Seq<char>) -> Option<Option<Seq<char>>> {
    match spec_get(p, key) {
        Some(JsonSpec::Str(s)) => Some(Some(s)),
        Some(_) => None,
        None => Some(None),
    }
}

/// Decode the optional string bound to `key`.
fn decode_opt_member_str(v: &JsonValue, key: &str) -> (r: Result<Option<String>, McpError>)
    ensures
        match r {
            Ok(s) => spec_opt_member_str(v@, key@) == Some(s.deep_view()),
            Err(e) => spec_opt_member_str(v@, key@) is None && e is Validation,
        },
{
    match v.get(key) {
        Some(m) => match m.as_str() {
            Some(s) => Ok(Some(String::from_str(s))),
            None => Err(McpError::Validation(String::from_str("member must be a string"))),
        },
        None => Ok(None),
    }
}

/// The create-message parameters a JSON value carries, if well-formed:
/// a mandatory `messages` list of sampling messages, with optional
/// `systemPrompt`, `includeContext`, `maxTokens`, `stopSequences` and
/// `metadata`.
pub open spec fn spec_create_message_params(p: JsonSpec) -> Option<CreateMessageParamsView> {
    match spec_get(p, "messages"@) {
        Some(JsonSpec::Arr(items)) => if spec_sampling_messages_ok(items) {
            match (spec_opt_member_str(p, "systemPrompt"@), spec_opt_member_str(
                p,
                "includeContext"@,
            )) {
                (Some(system_prompt), Some(include_context)) => {
                    let max_tokens = match spec_get(p, "maxTokens"@) {
                        Some(JsonSpec::Int(n)) => if 0 <= n <= u32::MAX {
                            Some(Some(n as u32))
                        } else {
                            None
                        },
                        Some(_) => None,
                        None => Some(None),
                    };
                    let stop_sequences = match spec_get(p, "stopSequences"@) {
                        Some(JsonSpec::Arr(seqs)) => if forall|i: int|
                            0 <= i < seqs.len() ==> #[trigger] seqs[i] is Str {
                            Some(Some(Seq::new(seqs.len(), |i: int| seqs[i]->Str_0)))
                        } else {
                            None
                        },
                        Some(_) => None,
                        None => Some(None),
                    };
                    let metadata = match spec_get(p, "metadata"@) {
                        Some(JsonSpec::Obj(members)) => Some(Some(members)),
                        Some(_) => None,
                        None => Some(None),
                    };
                    match (max_tokens, stop_sequences, metadata) {
                        (Some(mt), Some(ss), Some(md)) => Some(
                            CreateMessageParamsView {
                                messages: spec_sampling_messages(items),
                                system_prompt,
                                include_context,
                                max_tokens: mt,
                                stop_sequences: ss,
                                metadata: md,
                            },
                        ),
                        _ => None,
                    }
                },
                _ => None,
            }
        } else {
            None
        },
        _ => None,
    }
}

/// Decode create-message parameters.
pub fn decode_create_message_params(v: &JsonValue) -> (r: Result<CreateMessageParams, McpError>)
    ensures
        match r {
            Ok(p) => spec_create_message_params(v@) == Some(p@),
            Err(e) => spec_create_message_params(v@) is None && e is Validation,
        },
{
    let messages = match v.get("messages") {
        Some(m) => match m {
            JsonValue::Arr(items) => {
                proof {
                    crate::json::lemma_arr_view(*items);
                }
                let mut out: Vec<SamplingMessage> = Vec::new();
                let mut i: usize = 0;
                while i < items.len()
                    invariant
                        i <= items@.len(),
                        out@.len() == i as nat,
                        spec_get(v@, "messages"@) == Some(JsonSpec::Arr(items.deep_view())),
                        forall|j: int| 0 <= j < i ==> spec_sampling_message(
                            items.deep_view()[j],
                        ) is Some,
                        forall|j: int| 0 <= j < i ==> (#[trigger] out@[j]).deep_view()
                            == spec_sampling_message(items.deep_view()[j])->0,
                    decreases items@.len() - i,
                {
                    match decode_sampling_message(&items[i]) {
                        Ok(msg) => {
                            out.push(msg);
                        },
                        Err(e) => {
                            proof {
                                assert(spec_sampling_message(items.deep_view()[i as int]) is None);
                            }
                            return Err(e);
                        },
                    }
                    i += 1;
                }
                proof {
                    assert(out.deep_view() =~= spec_sampling_messages(items.deep_view()));
                }
                out
            },
            _ => {
                return Err(McpError::Validation(String::from_str("messages must be a list")));
            },
        },
        None => {
            return Err(McpError::Validation(String::from_str("missing messages")));
        },
    };
    let system_prompt = match decode_opt_member_str(v, "systemPrompt") {
        Ok(s) => s,
        Err(e) => {
            return Err(e);
        },
    };
    let include_context = match decode_opt_member_str(v, "includeContext") {
        Ok(s) => s,
        Err(e) => {
            return Err(e);
        },
    };
    let max_tokens = match v.get("maxTokens") {
        Some(m) => match m {
            JsonValue::Int(n) => {
                if 0 <= *n && *n <= u32::MAX as i64 {
                    Some(*n as u32)
                } else {
                    return Err(McpError::Validation(String::from_str("maxTokens out of range")));
                }
            },
            _ => {
                return Err(McpError::Validation(String::from_str("maxTokens must be an integer")));
            },
        },
        None => None,
    };
    let stop_sequences = match v.get("stopSequences") {
        Some(m) => match m {
            JsonValue::Arr(seqs) => {
                proof {
                    crate::json::lemma_arr_view(*seqs);
                }
                let mut out: Vec<String> = Vec::new();
                let mut i: usize = 0;
                while i < seqs.len()
                    invariant
                        i <= seqs@.len(),
                        out@.len() == i as nat,
                        spec_get(v@, "stopSequences"@) == Some(JsonSpec::Arr(seqs.deep_view())),
                        forall|j: int| 0 <= j < i ==> seqs.deep_view()[j] is Str,
                        forall|j: int| 0 <= j < i ==> (#[trigger] out@[j])@ == seqs.deep_view()[j]->Str_0,
                    decreases seqs@.len() - i,
                {
                    match seqs[i].as_str() {
                        Some(s) => {
                            out.push(String::from_str(s));
                        },
                        None => {
                            proof {
                                assert(!(seqs.deep_view()[i as int] is Str));
                            }
                            return Err(
                                McpError::Validation(
                                    String::from_str("stopSequences must hold strings"),
                                ),
                            );
                        },
                    }
                    i += 1;
                }
                proof {
                    assert(out.deep_view() =~= Seq::new(
                        seqs.deep_view().len(),
                        |j: int| seqs.deep_view()[j]->Str_0,
                    ));
                }
                Some(out)
            },
            _ => {
                return Err(McpError::Validation(String::from_str("stopSequences must be a list")));
            },
        },
        None => None,
    };
    let metadata = match v.get("metadata") {
        Some(m) => match m {
            JsonValue::Obj(members) => Some(members.deep_clone()),
            _ => {
                return Err(McpError::Validation(String::from_str("metadata must be an object")));
            },
        },
        None => None,
    };
    Ok(
        CreateMessageParams {
            messages,
            system_prompt,
            include_context,
            max_tokens,
            stop_sequences,
            metadata,
        },
    )
}

} // verus!
