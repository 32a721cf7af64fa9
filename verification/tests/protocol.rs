//! Tests for the protocol types, message constructors, and validators.

use mcp_protocol_sdk::decode::{
    decode_create_message_params, decode_frame, decode_set_level_params, parse_logging_level,
    IncomingMessage,
};
use mcp_protocol_sdk::messages::LoggingLevel;
use mcp_protocol_sdk::error::McpError;
use mcp_protocol_sdk::json::JsonValue;
use mcp_protocol_sdk::messages::{
    CallToolParams, InitializeParams, ListToolsParams, ReadResourceParams, SamplingContent,
    SamplingMessage, MCP_PROTOCOL_VERSION,
};
use mcp_protocol_sdk::methods;
use mcp_protocol_sdk::types::{
    ClientCapabilities, ClientInfo, Content, JsonRpcRequest, JsonRpcResponse, ToolInfo,
    INVALID_PARAMS,
};
use mcp_protocol_sdk::text::{parse_u64_dec, u64_to_dec};
use mcp_protocol_sdk::validation::{validate_jsonrpc_message,
    validate_content, validate_jsonrpc_request, validate_mcp_request, validate_method_name,
    validate_tool_info, validate_uri,
};

fn default_client_capabilities() -> ClientCapabilities {
    ClientCapabilities { sampling: None }
}

#[test]
fn test_library_exports() {
    // Basic smoke test to ensure all modules are accessible
    let _error = McpError::Protocol("test".to_string());
}

#[test]
fn test_sampling_message_creation() {
    let user_msg = SamplingMessage::user("Hello, world!".to_string());
    assert_eq!(user_msg.role, "user");

    if let SamplingContent::Text(text) = user_msg.content {
        assert_eq!(text, "Hello, world!");
    } else {
        panic!("Expected text content");
    }

    let assistant_msg = SamplingMessage::assistant("Hello back!".to_string());
    assert_eq!(assistant_msg.role, "assistant");
}

#[test]
fn test_method_constants() {
    assert_eq!(methods::INITIALIZE, "initialize");
    assert_eq!(methods::TOOLS_LIST, "tools/list");
    assert_eq!(methods::TOOLS_CALL, "tools/call");
    assert_eq!(methods::RESOURCES_READ, "resources/read");
    assert_eq!(methods::PROMPTS_GET, "prompts/get");
    assert_eq!(methods::SAMPLING_CREATE_MESSAGE, "sampling/createMessage");
}

#[test]
fn test_validate_uri() {
    assert!(validate_uri("https://example.com").is_ok());
    assert!(validate_uri("file:///path/to/file").is_ok());
    assert!(validate_uri("/absolute/path").is_ok());
    assert!(validate_uri("").is_err());
    assert!(validate_uri("invalid").is_err());
}

#[test]
fn test_validate_content() {
    let valid_text = Content::text("Hello, world!".to_string());
    assert!(validate_content(&valid_text).is_ok());

    let valid_image = Content::image("base64data".to_string(), "image/png".to_string());
    assert!(validate_content(&valid_image).is_ok());

    let invalid_text = Content::Text {
        text: "".to_string(),
    };
    assert!(validate_content(&invalid_text).is_err());

    let invalid_image = Content::Image {
        data: "data".to_string(),
        mime_type: "text/plain".to_string(), // Invalid MIME type for image
    };
    assert!(validate_content(&invalid_image).is_err());
}

#[test]
fn test_validate_method_name() {
    assert!(validate_method_name(methods::INITIALIZE).is_ok());
    assert!(validate_method_name(methods::TOOLS_LIST).is_ok());
    assert!(validate_method_name("custom/method").is_ok());
    assert!(validate_method_name("custom.method").is_ok());
    assert!(validate_method_name("").is_err());
}

#[test]
fn test_jsonrpc_request() {
    let request = JsonRpcRequest::new(
        JsonValue::Int(1),
        "test_method".to_string(),
        Some(JsonValue::Obj(vec![(
            "param".to_string(),
            JsonValue::Str("value".to_string()),
        )])),
    );

    assert_eq!(request.jsonrpc, "2.0");
    assert_eq!(request.method, "test_method");
    assert_eq!(request.id, JsonValue::Int(1));
}

#[test]
fn test_jsonrpc_response() {
    let response = JsonRpcResponse::success(
        JsonValue::Int(1),
        JsonValue::Obj(vec![(
            "result".to_string(),
            JsonValue::Str("success".to_string()),
        )]),
    );
    assert_eq!(response.jsonrpc, "2.0");
    assert_eq!(response.id, JsonValue::Int(1));
    assert!(response.result.is_some());
    assert!(response.error.is_none());

    let error_response = JsonRpcResponse::error(
        JsonValue::Int(1),
        INVALID_PARAMS,
        "Invalid parameters".to_string(),
        None,
    );
    assert!(error_response.result.is_none());
    assert!(error_response.error.is_some());
}

#[test]
fn test_validate_jsonrpc_request() {
    let valid_request = JsonRpcRequest {
        jsonrpc: "2.0".to_string(),
        id: JsonValue::Int(1),
        method: "test_method".to_string(),
        params: None,
    };
    assert!(validate_jsonrpc_request(&valid_request).is_ok());

    let invalid_request = JsonRpcRequest {
        jsonrpc: "1.0".to_string(),
        id: JsonValue::Int(1),
        method: "test_method".to_string(),
        params: None,
    };
    assert!(validate_jsonrpc_request(&invalid_request).is_err());
}

#[test]
fn test_validate_tool_info() {
    let valid_tool = ToolInfo {
        name: "test_tool".to_string(),
        description: Some("A test tool".to_string()),
        input_schema: JsonValue::Obj(vec![
            ("type".to_string(), JsonValue::Str("object".to_string())),
            (
                "properties".to_string(),
                JsonValue::Obj(vec![(
                    "param".to_string(),
                    JsonValue::Obj(vec![(
                        "type".to_string(),
                        JsonValue::Str("string".to_string()),
                    )]),
                )]),
            ),
        ]),
    };
    assert!(validate_tool_info(&valid_tool).is_ok());

    let invalid_tool = ToolInfo {
        name: "".to_string(),
        description: None,
        input_schema: JsonValue::Str("not an object".to_string()),
    };
    assert!(validate_tool_info(&invalid_tool).is_err());
}

#[test]
fn test_validate_mcp_request() {
    let init_params = JsonValue::Obj(vec![
        (
            "clientInfo".to_string(),
            JsonValue::Obj(vec![
                ("name".to_string(), JsonValue::Str("test-client".to_string())),
                ("version".to_string(), JsonValue::Str("1.0.0".to_string())),
            ]),
        ),
        ("capabilities".to_string(), JsonValue::Obj(vec![])),
        (
            "protocolVersion".to_string(),
            JsonValue::Str("2024-11-05".to_string()),
        ),
    ]);

    assert!(validate_mcp_request(methods::INITIALIZE, Some(&init_params)).is_ok());
    assert!(validate_mcp_request(methods::PING, None).is_ok());
    assert!(validate_mcp_request("", None).is_err());
}

#[test]
fn test_initialize_params_constructor() {
    let params = InitializeParams::new(
        ClientInfo {
            name: "test-client".to_string(),
            version: "1.0.0".to_string(),
        },
        default_client_capabilities(),
        MCP_PROTOCOL_VERSION.to_string(),
    );
    assert_eq!(params.client_info.name, "test-client");
    assert_eq!(params.protocol_version, MCP_PROTOCOL_VERSION);
}

#[test]
fn test_call_tool_params_constructor() {
    let params = CallToolParams::new(
        "test_tool".to_string(),
        Some(vec![
            ("param1".to_string(), JsonValue::Str("value1".to_string())),
            ("param2".to_string(), JsonValue::Int(42)),
        ]),
    );
    assert_eq!(params.name, "test_tool");
    let args = params.arguments.unwrap();
    assert_eq!(args[0].0, "param1");
    assert_eq!(args[1].1, JsonValue::Int(42));
}

#[test]
fn test_read_resource_params_constructor() {
    let params = ReadResourceParams::new("file:///path/to/file.txt".to_string());
    assert_eq!(params.uri, "file:///path/to/file.txt");
}

#[test]
fn test_list_tools_params_default() {
    let params = ListToolsParams::default();
    assert!(params.cursor.is_none());
}

#[test]
fn test_error_codes() {
    assert_eq!(McpError::Protocol("x".to_string()).error_code(), -32600);
    assert_eq!(McpError::Validation("x".to_string()).error_code(), -32602);
    assert_eq!(McpError::ToolNotFound("x".to_string()).error_code(), -32000);
    assert_eq!(
        McpError::ResourceNotFound("x".to_string()).error_code(),
        -32001
    );
    assert_eq!(McpError::PromptNotFound("x".to_string()).error_code(), -32002);
    assert_eq!(McpError::Internal("x".to_string()).error_code(), -32603);
    assert_eq!(McpError::Internal("boom".to_string()).message(), "boom");
}

#[test]
fn test_json_member_lookup() {
    let v = JsonValue::Obj(vec![
        ("a".to_string(), JsonValue::Int(1)),
        ("b".to_string(), JsonValue::Null),
    ]);
    assert!(v.is_object());
    assert_eq!(v.get("a"), Some(&JsonValue::Int(1)));
    assert!(v.get("b").unwrap().is_null());
    assert!(v.get("c").is_none());
    assert_eq!(
        JsonValue::Str("s".to_string()).as_str(),
        Some("s")
    );
    let copy = v.clone();
    assert_eq!(copy, v);
}

#[test]
fn test_validate_jsonrpc_message_shapes() {
    let request = JsonValue::Obj(vec![
        ("jsonrpc".to_string(), JsonValue::Str("2.0".to_string())),
        ("method".to_string(), JsonValue::Str("ping".to_string())),
        ("id".to_string(), JsonValue::Int(1)),
    ]);
    assert!(validate_jsonrpc_message(&request).is_ok());

    let response = JsonValue::Obj(vec![
        ("jsonrpc".to_string(), JsonValue::Str("2.0".to_string())),
        ("result".to_string(), JsonValue::Null),
        ("id".to_string(), JsonValue::Int(1)),
    ]);
    assert!(validate_jsonrpc_message(&response).is_ok());

    let response_without_id = JsonValue::Obj(vec![
        ("jsonrpc".to_string(), JsonValue::Str("2.0".to_string())),
        ("result".to_string(), JsonValue::Null),
    ]);
    assert!(validate_jsonrpc_message(&response_without_id).is_err());

    let wrong_version = JsonValue::Obj(vec![
        ("jsonrpc".to_string(), JsonValue::Str("1.0".to_string())),
        ("method".to_string(), JsonValue::Str("ping".to_string())),
    ]);
    assert!(validate_jsonrpc_message(&wrong_version).is_err());

    assert!(validate_jsonrpc_message(&JsonValue::Int(3)).is_err());
}

#[test]
fn test_decimal_cursor_round_trip() {
    assert_eq!(u64_to_dec(0), "0");
    assert_eq!(u64_to_dec(405), "405");
    assert_eq!(parse_u64_dec("123"), Some(123));
    assert_eq!(parse_u64_dec(""), None);
    assert_eq!(parse_u64_dec("12x"), None);
    assert_eq!(parse_u64_dec("99999999999999999999999"), None);
    assert_eq!(parse_u64_dec(&u64_to_dec(18_446_744_073_709_551_615)), Some(u64::MAX));
}

#[test]
fn test_decode_frame_splits_requests_and_notifications() {
    let req = JsonValue::Obj(vec![
        ("jsonrpc".to_string(), JsonValue::Str("2.0".to_string())),
        ("id".to_string(), JsonValue::Int(7)),
        ("method".to_string(), JsonValue::Str("ping".to_string())),
    ]);
    match decode_frame(&req) {
        Ok(IncomingMessage::Request(r)) => {
            assert_eq!(r.id, JsonValue::Int(7));
            assert_eq!(r.method, "ping");
            assert!(r.params.is_none());
        }
        other => panic!("expected a request, got {:?}", other),
    }

    let note = JsonValue::Obj(vec![
        ("jsonrpc".to_string(), JsonValue::Str("2.0".to_string())),
        ("method".to_string(), JsonValue::Str("progress".to_string())),
        ("params".to_string(), JsonValue::Obj(vec![])),
    ]);
    match decode_frame(&note) {
        Ok(IncomingMessage::Notification(n)) => {
            assert_eq!(n.method, "progress");
            assert_eq!(n.params, Some(JsonValue::Obj(vec![])));
        }
        other => panic!("expected a notification, got {:?}", other),
    }

    // A response frame is well-formed but has no method: refused here.
    let resp = JsonValue::Obj(vec![
        ("jsonrpc".to_string(), JsonValue::Str("2.0".to_string())),
        ("id".to_string(), JsonValue::Int(7)),
        ("result".to_string(), JsonValue::Null),
    ]);
    assert!(decode_frame(&resp).is_err());
}

#[test]
fn test_logging_level_names() {
    // The wire names of the logging levels, as the level enumeration
    // serializes them.
    assert_eq!(parse_logging_level("warning"), Some(LoggingLevel::Warning));
    assert_eq!(parse_logging_level("error"), Some(LoggingLevel::Error));
    assert_eq!(parse_logging_level("debug"), Some(LoggingLevel::Debug));
    assert_eq!(parse_logging_level("emergency"), Some(LoggingLevel::Emergency));
    assert_eq!(parse_logging_level("loud"), None);

    let params = JsonValue::Obj(vec![(
        "level".to_string(),
        JsonValue::Str("warning".to_string()),
    )]);
    assert_eq!(
        decode_set_level_params(&params).unwrap().level,
        LoggingLevel::Warning
    );
}

#[test]
fn test_validate_mcp_request_progress_structure() {
    // The structural part of a progress request is checked here; only
    // the numeric range of the fraction is left to the embedding
    // application.
    assert!(validate_mcp_request(methods::PROGRESS, Some(&JsonValue::Obj(vec![]))).is_err());

    let no_token = JsonValue::Obj(vec![("progress".to_string(), JsonValue::Int(0))]);
    assert!(validate_mcp_request(methods::PROGRESS, Some(&no_token)).is_err());

    let empty_token = JsonValue::Obj(vec![
        ("progressToken".to_string(), JsonValue::Str("".to_string())),
        ("progress".to_string(), JsonValue::Int(0)),
    ]);
    assert!(validate_mcp_request(methods::PROGRESS, Some(&empty_token)).is_err());

    let no_number = JsonValue::Obj(vec![(
        "progressToken".to_string(),
        JsonValue::Str("op-1".to_string()),
    )]);
    assert!(validate_mcp_request(methods::PROGRESS, Some(&no_number)).is_err());

    let fraction = JsonValue::Obj(vec![
        (
            "progressToken".to_string(),
            JsonValue::Str("op-1".to_string()),
        ),
        ("progress".to_string(), JsonValue::Num("0.5".to_string())),
        ("total".to_string(), JsonValue::Int(10)),
    ]);
    assert!(validate_mcp_request(methods::PROGRESS, Some(&fraction)).is_ok());

    let bad_total = JsonValue::Obj(vec![
        (
            "progressToken".to_string(),
            JsonValue::Str("op-1".to_string()),
        ),
        ("progress".to_string(), JsonValue::Int(1)),
        ("total".to_string(), JsonValue::Str("many".to_string())),
    ]);
    assert!(validate_mcp_request(methods::PROGRESS, Some(&bad_total)).is_err());
}

#[test]
fn test_create_message_params_keep_metadata() {
    let params = JsonValue::Obj(vec![
        (
            "messages".to_string(),
            JsonValue::Arr(vec![JsonValue::Obj(vec![
                ("role".to_string(), JsonValue::Str("user".to_string())),
                ("content".to_string(), JsonValue::Str("Hello".to_string())),
            ])]),
        ),
        (
            "metadata".to_string(),
            JsonValue::Obj(vec![(
                "trace".to_string(),
                JsonValue::Str("abc".to_string()),
            )]),
        ),
    ]);
    let decoded = decode_create_message_params(&params).unwrap();
    let metadata = decoded.metadata.expect("metadata must be kept");
    assert_eq!(metadata[0].0, "trace");
    assert_eq!(metadata[0].1, JsonValue::Str("abc".to_string()));

    let bad = JsonValue::Obj(vec![
        (
            "messages".to_string(),
            JsonValue::Arr(vec![JsonValue::Obj(vec![
                ("role".to_string(), JsonValue::Str("user".to_string())),
                ("content".to_string(), JsonValue::Str("Hello".to_string())),
            ])]),
        ),
        ("metadata".to_string(), JsonValue::Str("oops".to_string())),
    ]);
    assert!(decode_create_message_params(&bad).is_err());
}
