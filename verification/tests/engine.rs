//! Tests for the server engine: lifecycle gating, the initialize
//! handshake, registries, pagination, subscriptions, and how handler
//! outcomes are normalized.

use mcp_protocol_sdk::correlation::CorrelationTable;
use mcp_protocol_sdk::error::McpError;
use mcp_protocol_sdk::json::JsonValue;
use mcp_protocol_sdk::lifecycle::LifecycleState;
use mcp_protocol_sdk::messages::MCP_PROTOCOL_VERSION;
use mcp_protocol_sdk::server::{
    complete_prompt_get, complete_resource_read, complete_tool_call, McpServer, Outcome, Reply,
    ReplyBody,
};
use mcp_protocol_sdk::server::NoticeOutcome;
use mcp_protocol_sdk::types::{Content, JsonRpcNotification, JsonRpcRequest, ToolResult};

type Server = McpServer<i32, i32, i32>;

fn new_server() -> Server {
    McpServer::new("test-server".to_string(), "1.0.0".to_string())
}

fn init_params(version: &str) -> JsonValue {
    JsonValue::Obj(vec![
        (
            "clientInfo".to_string(),
            JsonValue::Obj(vec![
                ("name".to_string(), JsonValue::Str("test-client".to_string())),
                ("version".to_string(), JsonValue::Str("1.0.0".to_string())),
            ]),
        ),
        ("capabilities".to_string(), JsonValue::Obj(vec![])),
        (
            "protocolVersion".to_string(),
            JsonValue::Str(version.to_string()),
        ),
    ])
}

fn request(id: i64, method: &str, params: Option<JsonValue>) -> JsonRpcRequest {
    JsonRpcRequest::new(JsonValue::Int(id), method.to_string(), params)
}

fn ready_connection(server: &mut Server, conn: u64) {
    assert!(server.connect(conn));
    let out = server.handle_request(
        conn,
        request(0, "initialize", Some(init_params(MCP_PROTOCOL_VERSION))),
    );
    match out {
        Outcome::Reply(Reply {
            body: ReplyBody::Init(_),
            ..
        }) => {}
        other => panic!("handshake failed: {:?}", other),
    }
}

fn call_params(name: &str) -> JsonValue {
    JsonValue::Obj(vec![(
        "name".to_string(),
        JsonValue::Str(name.to_string()),
    )])
}

fn uri_params(uri: &str) -> JsonValue {
    JsonValue::Obj(vec![("uri".to_string(), JsonValue::Str(uri.to_string()))])
}

fn cursor_params(cursor: &str) -> JsonValue {
    JsonValue::Obj(vec![(
        "cursor".to_string(),
        JsonValue::Str(cursor.to_string()),
    )])
}

fn expect_fail(out: Outcome) -> i32 {
    match out {
        Outcome::Reply(Reply {
            body: ReplyBody::Fail(e),
            ..
        }) => e.code,
        other => panic!("expected an error reply, got {:?}", other),
    }
}

fn add_tool(server: &mut Server, name: &str, handler: i32) {
    server
        .add_tool(name.to_string(), None, JsonValue::Obj(vec![]), handler)
        .unwrap();
}

#[test]
fn test_request_before_ready_is_refused() {
    let mut server = new_server();
    assert!(server.connect(7));
    add_tool(&mut server, "echo", 1);
    let out = server.handle_request(7, request(1, "tools/call", Some(call_params("echo"))));
    assert_eq!(expect_fail(out), -32600);
    // The handler was never reached: dispatch produced no invocation,
    // and the tool is still exactly the registered one.
    assert_eq!(server.get_tool("echo"), Some(&1));
    let out = server.handle_request(7, request(2, "tools/list", None));
    assert_eq!(expect_fail(out), -32600);
}

#[test]
fn test_initialize_success_and_version_mismatch() {
    let mut server = new_server();
    assert!(server.connect(1));
    let out = server.handle_request(1, request(1, "initialize", Some(init_params("1999-01-01"))));
    assert_eq!(expect_fail(out), -32602);
    assert_eq!(server.conn_state(1), Some(LifecycleState::Uninitialized));

    let out = server.handle_request(
        1,
        request(2, "initialize", Some(init_params(MCP_PROTOCOL_VERSION))),
    );
    match out {
        Outcome::Reply(Reply {
            id,
            body: ReplyBody::Init(res),
        }) => {
            assert_eq!(id, JsonValue::Int(2));
            assert_eq!(res.protocol_version, MCP_PROTOCOL_VERSION);
            assert_eq!(res.server_info.name, "test-server");
        }
        other => panic!("expected init result, got {:?}", other),
    }
    assert_eq!(server.conn_state(1), Some(LifecycleState::Ready));

    // initialize is refused once the connection is Ready: states never
    // move backwards.
    let out = server.handle_request(
        1,
        request(3, "initialize", Some(init_params(MCP_PROTOCOL_VERSION))),
    );
    assert_eq!(expect_fail(out), -32600);
}

#[test]
fn test_echo_call_reaches_latest_handler() {
    let mut server = new_server();
    ready_connection(&mut server, 1);
    add_tool(&mut server, "echo", 10);
    let out = server.handle_request(1, request(1, "tools/call", Some(call_params("echo"))));
    match out {
        Outcome::InvokeTool { id, name, .. } => {
            assert_eq!(id, JsonValue::Int(1));
            assert_eq!(name, "echo");
            assert_eq!(server.get_tool(&name), Some(&10));
        }
        other => panic!("expected an invocation, got {:?}", other),
    }

    // Re-registering "echo" replaces the handler in place: all
    // subsequent calls reach only the new one.
    add_tool(&mut server, "echo", 20);
    let out = server.handle_request(1, request(2, "tools/call", Some(call_params("echo"))));
    match out {
        Outcome::InvokeTool { name, .. } => {
            assert_eq!(server.get_tool(&name), Some(&20));
        }
        other => panic!("expected an invocation, got {:?}", other),
    }
}

#[test]
fn test_pagination_five_tools_page_size_two() {
    let mut server = new_server();
    server.page_size = 2;
    ready_connection(&mut server, 1);
    for (i, name) in ["t1", "t2", "t3", "t4", "t5"].iter().enumerate() {
        add_tool(&mut server, name, i as i32);
    }

    let page = |server: &mut Server, params: Option<JsonValue>| {
        match server.handle_request(1, request(9, "tools/list", params)) {
            Outcome::Reply(Reply {
                body: ReplyBody::ToolList(lr),
                ..
            }) => lr,
            other => panic!("expected a tool list, got {:?}", other),
        }
    };

    let first = page(&mut server, None);
    assert_eq!(first.tools.len(), 2);
    assert_eq!(first.tools[0].name, "t1");
    assert_eq!(first.tools[1].name, "t2");
    let c1 = first.next_cursor.expect("first page must carry a cursor");

    let second = page(&mut server, Some(cursor_params(&c1)));
    assert_eq!(second.tools.len(), 2);
    assert_eq!(second.tools[0].name, "t3");
    assert_eq!(second.tools[1].name, "t4");
    let c2 = second.next_cursor.expect("second page must carry a cursor");

    let third = page(&mut server, Some(cursor_params(&c2)));
    assert_eq!(third.tools.len(), 1);
    assert_eq!(third.tools[0].name, "t5");
    assert!(third.next_cursor.is_none());

    let out = server.handle_request(1, request(10, "tools/list", Some(cursor_params("bogus"))));
    assert_eq!(expect_fail(out), -32602);
}

#[test]
fn test_unknown_tool_yields_tool_not_found() {
    let mut server = new_server();
    ready_connection(&mut server, 1);
    let out = server.handle_request(1, request(1, "tools/call", Some(call_params("nope"))));
    assert_eq!(expect_fail(out), -32000);
}

#[test]
fn test_subscribe_update_unsubscribe() {
    let mut server = new_server();
    ready_connection(&mut server, 1);
    ready_connection(&mut server, 2);
    server
        .add_resource(
            "res://a".to_string(),
            "a".to_string(),
            None,
            None,
            5,
        )
        .unwrap();

    let out = server.handle_request(1, request(1, "resources/subscribe", Some(uri_params("res://a"))));
    match out {
        Outcome::Reply(Reply {
            body: ReplyBody::Subscribed,
            ..
        }) => {}
        other => panic!("expected subscribed, got {:?}", other),
    }

    // Exactly one push target, exactly once.
    let targets = server.updated_targets("res://a");
    assert_eq!(targets, vec![1]);

    // Subscribing twice stays idempotent.
    server.handle_request(1, request(2, "resources/subscribe", Some(uri_params("res://a"))));
    assert_eq!(server.updated_targets("res://a"), vec![1]);

    let out = server.handle_request(
        1,
        request(3, "resources/unsubscribe", Some(uri_params("res://a"))),
    );
    match out {
        Outcome::Reply(Reply {
            body: ReplyBody::Unsubscribed,
            ..
        }) => {}
        other => panic!("expected unsubscribed, got {:?}", other),
    }
    assert!(server.updated_targets("res://a").is_empty());

    // Subscribing to an unknown resource is the resource-not-found error.
    let out = server.handle_request(1, request(4, "resources/subscribe", Some(uri_params("res://b"))));
    assert_eq!(expect_fail(out), -32001);
}

#[test]
fn test_handler_failure_becomes_internal_error_and_connection_survives() {
    let mut server = new_server();
    ready_connection(&mut server, 1);
    add_tool(&mut server, "echo", 1);
    let out = server.handle_request(1, request(1, "tools/call", Some(call_params("echo"))));
    let id = match out {
        Outcome::InvokeTool { id, .. } => id,
        other => panic!("expected an invocation, got {:?}", other),
    };

    // The handler raised an unexpected failure.
    let reply = complete_tool_call(id, Err(McpError::Internal("secret detail".to_string())));
    match reply.body {
        ReplyBody::Fail(e) => {
            assert_eq!(e.code, -32603);
            assert_eq!(e.message, "Internal error");
        }
        other => panic!("expected an error reply, got {:?}", other),
    }

    // The connection still answers a subsequent ping.
    let out = server.handle_request(1, request(2, "ping", None));
    match out {
        Outcome::Reply(Reply {
            id,
            body: ReplyBody::Pong,
        }) => assert_eq!(id, JsonValue::Int(2)),
        other => panic!("expected pong, got {:?}", other),
    }
}

#[test]
fn test_list_pages_come_from_one_snapshot() {
    let mut server = new_server();
    server.page_size = 2;
    ready_connection(&mut server, 1);
    add_tool(&mut server, "a", 1);
    add_tool(&mut server, "b", 2);
    add_tool(&mut server, "c", 3);

    // Every page is a slice of the registry as it stands at that call:
    // after a mutation between pages, the next page reflects the new
    // snapshot, never a torn mix.
    let first = match server.handle_request(1, request(1, "tools/list", None)) {
        Outcome::Reply(Reply {
            body: ReplyBody::ToolList(lr),
            ..
        }) => lr,
        other => panic!("expected a tool list, got {:?}", other),
    };
    assert_eq!(first.tools.len(), 2);
    let cursor = first.next_cursor.unwrap();

    server.remove_tool("c").unwrap();
    let second = match server.handle_request(
        1,
        request(2, "tools/list", Some(cursor_params(&cursor))),
    ) {
        Outcome::Reply(Reply {
            body: ReplyBody::ToolList(lr),
            ..
        }) => lr,
        other => panic!("expected a tool list, got {:?}", other),
    };
    assert!(second.tools.is_empty());
    assert!(second.next_cursor.is_none());
}

#[test]
fn test_unknown_method_and_notifications() {
    let mut server = new_server();
    ready_connection(&mut server, 1);
    let out = server.handle_request(1, request(1, "no_such_method", None));
    assert_eq!(expect_fail(out), -32601);

    let progress = JsonValue::Obj(vec![
        (
            "progressToken".to_string(),
            JsonValue::Str("op-1".to_string()),
        ),
        ("progress".to_string(), JsonValue::Int(1)),
    ]);
    let n = JsonRpcNotification::new("progress".to_string(), Some(progress.clone()));
    assert_eq!(
        server.handle_notification(1, n),
        NoticeOutcome::ForwardProgress {
            params: Some(progress.clone())
        }
    );
    // A progress notification that fails validation is dropped: no
    // params, or an empty token.
    let n = JsonRpcNotification::new("progress".to_string(), None);
    assert_eq!(server.handle_notification(1, n), NoticeOutcome::Dropped);
    let bad = JsonValue::Obj(vec![
        ("progressToken".to_string(), JsonValue::Str("".to_string())),
        ("progress".to_string(), JsonValue::Int(0)),
    ]);
    let n = JsonRpcNotification::new("progress".to_string(), Some(bad));
    assert_eq!(server.handle_notification(1, n), NoticeOutcome::Dropped);
    // Notifications ahead of Ready are dropped silently.
    assert!(server.connect(2));
    let n = JsonRpcNotification::new("progress".to_string(), Some(progress));
    assert_eq!(server.handle_notification(2, n), NoticeOutcome::Dropped);
}

#[test]
fn test_registry_listing_order_and_removal() {
    let mut server = new_server();
    ready_connection(&mut server, 1);
    add_tool(&mut server, "b", 1);
    add_tool(&mut server, "a", 2);
    add_tool(&mut server, "b", 3); // replaces in place, keeps order
    let listing = match server.handle_request(1, request(1, "tools/list", None)) {
        Outcome::Reply(Reply {
            body: ReplyBody::ToolList(lr),
            ..
        }) => lr,
        other => panic!("expected a tool list, got {:?}", other),
    };
    assert_eq!(listing.tools.len(), 2);
    assert_eq!(listing.tools[0].name, "b");
    assert_eq!(listing.tools[1].name, "a");
    assert_eq!(server.get_tool("b"), Some(&3));

    assert!(server.remove_tool("b").is_some());
    assert!(server.remove_tool("b").is_none());
    assert_eq!(server.get_tool("b"), None);
}

#[test]
fn test_list_changed_events_target_ready_connections() {
    let mut server = new_server();
    ready_connection(&mut server, 1);
    assert!(server.connect(2)); // never initialized: not a target
    let ev = server
        .add_tool("t".to_string(), None, JsonValue::Obj(vec![]), 9)
        .unwrap();
    assert_eq!(ev.targets, vec![1]);

    // An invalid registration changes nothing and raises no event.
    let err = server.add_tool("".to_string(), None, JsonValue::Obj(vec![]), 9);
    assert!(err.is_err());
}

#[test]
fn test_shutdown_and_disconnect_prune_subscriptions() {
    let mut server = new_server();
    ready_connection(&mut server, 1);
    server
        .add_resource("res://a".to_string(), "a".to_string(), None, None, 5)
        .unwrap();
    server.handle_request(1, request(1, "resources/subscribe", Some(uri_params("res://a"))));
    assert_eq!(server.updated_targets("res://a"), vec![1]);

    assert!(server.begin_shutdown(1));
    assert_eq!(server.conn_state(1), Some(LifecycleState::ShuttingDown));
    // A subscriber no longer Ready receives no pushes.
    assert!(server.updated_targets("res://a").is_empty());

    assert!(server.finish_shutdown(1));
    assert_eq!(server.conn_state(1), Some(LifecycleState::Closed));
    // Ping is refused only after Closed.
    let out = server.handle_request(1, request(2, "ping", None));
    assert_eq!(expect_fail(out), -32600);

    server.disconnect(1);
    assert_eq!(server.conn_state(1), None);
}

#[test]
fn test_complete_calls_normalize_results() {
    let tr = ToolResult {
        content: vec![Content::text("out".to_string())],
        is_error: Some(true),
    };
    let reply = complete_tool_call(JsonValue::Int(4), Ok(tr));
    // A handler-reported domain failure is still a successful reply,
    // with the error flag carried in-band.
    match reply.body {
        ReplyBody::ToolCall(res) => {
            assert_eq!(res.is_error, Some(true));
            assert_eq!(res.content.len(), 1);
        }
        other => panic!("expected a tool call result, got {:?}", other),
    }

    let reply = complete_resource_read(JsonValue::Int(5), Err(McpError::Internal("x".into())));
    match reply.body {
        ReplyBody::Fail(e) => assert_eq!(e.code, -32603),
        other => panic!("expected an error reply, got {:?}", other),
    }

    let reply = complete_prompt_get(
        JsonValue::Int(6),
        Ok(mcp_protocol_sdk::types::PromptResult {
            description: None,
            messages: vec![],
        }),
    );
    match reply.body {
        ReplyBody::PromptGet(res) => assert!(res.messages.is_empty()),
        other => panic!("expected a prompt result, got {:?}", other),
    }
}

#[test]
fn test_prompt_and_resource_not_found_codes() {
    let mut server = new_server();
    ready_connection(&mut server, 1);
    let out = server.handle_request(1, request(1, "prompts/get", Some(call_params("nope"))));
    assert_eq!(expect_fail(out), -32002);
    let out = server.handle_request(
        1,
        request(2, "resources/read", Some(uri_params("res://missing"))),
    );
    assert_eq!(expect_fail(out), -32001);
}

#[test]
fn test_correlation_table_tracks_in_flight_requests() {
    let mut table: CorrelationTable<&str> = CorrelationTable::new();
    assert!(table.register(JsonValue::Int(1), "first"));
    assert!(table.register(JsonValue::Str("a".to_string()), "second"));
    // A second request under a pending id cannot be correlated.
    assert!(!table.register(JsonValue::Int(1), "dup"));
    assert_eq!(table.len(), 2);

    // Answers may arrive in any order; each takes its own slot, once.
    assert_eq!(table.take(&JsonValue::Str("a".to_string())), Some("second"));
    assert_eq!(table.take(&JsonValue::Str("a".to_string())), None);
    assert_eq!(table.take(&JsonValue::Int(1)), Some("first"));
    assert_eq!(table.len(), 0);
    assert_eq!(table.take(&JsonValue::Int(9)), None);
}
