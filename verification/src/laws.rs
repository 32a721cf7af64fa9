//! Laws of the server engine, each proved once and for all inputs:
//! lifecycle gating, the initialize handshake, last-write-wins
//! registration, cursor round trips, subscription delivery, ping after
//! a failed call, and snapshot-consistent listing.

use vstd::prelude::*;

use crate::lifecycle::LifecycleState;
use crate::messages::MCP_PROTOCOL_VERSION;
use crate::registry::Registry;
use crate::server::{
    spec_conn_state, spec_failed, spec_params_view, McpServer, Outcome, Reply, ReplyBody,
};
use crate::text::{lemma_dec_text_val, spec_dec_text};
use crate::types::{JsonRpcRequest, INVALID_PARAMS, INVALID_REQUEST};

verus! {

/// Every request method other than initialize and ping, sent while the
/// connection is not Ready (or unknown), is answered with the
/// invalid-request error; no handler is invoked and the server is left
/// untouched, so every handler's call count stays where it was.
pub proof fn lemma_premature_request_refused<T, R, P>(
    s0: McpServer<T, R, P>,
    s1: McpServer<T, R, P>,
    conn_id: u64,
    req: JsonRpcRequest,
    out: Outcome,
)
    requires
        McpServer::spec_dispatch(s0, s1, conn_id, req, out),
        req.method@ != "initialize"@,
        req.method@ != "ping"@,
        spec_conn_state(s0.connections@, conn_id) != Some(LifecycleState::Ready),
    ensures
        spec_failed(req, out, INVALID_REQUEST as int),
        s1 == s0,
        !(out is InvokeTool),
        !(out is InvokeResourceRead),
        !(out is InvokePromptGet),
        !(out is ForwardSampling),
{
}

/// The initialize exchange has exactly two outcomes, and they exclude
/// each other: either the handshake was acceptable — the connection
/// was Uninitialized, the parameters decoded, validated, and named the
/// protocol version this server speaks — and the connection is Ready
/// with the reply echoing that version; or the request was refused
/// with an error and the server is untouched.
pub proof fn lemma_initialize_exclusive<T, R, P>(
    s0: McpServer<T, R, P>,
    s1: McpServer<T, R, P>,
    conn_id: u64,
    req: JsonRpcRequest,
    out: Outcome,
)
    requires
        McpServer::spec_dispatch(s0, s1, conn_id, req, out),
        req.method@ == "initialize"@,
    ensures
        ({
            let acceptable = spec_conn_state(s0.connections@, conn_id) == Some(
                LifecycleState::Uninitialized,
            ) && match spec_params_view(req) {
                Some(p) => match crate::decode::spec_initialize_params(p) {
                    Some(ip) => crate::validation::spec_initialize_params_ok(ip)
                        && ip.protocol_version == MCP_PROTOCOL_VERSION@,
                    None => false,
                },
                None => false,
            };
            if acceptable {
                &&& spec_conn_state(s1.connections@, conn_id) == Some(LifecycleState::Ready)
                &&& out matches Outcome::Reply(rep) && rep.body matches ReplyBody::Init(res)
                    && res@.protocol_version == MCP_PROTOCOL_VERSION@
                &&& !spec_failed(req, out, INVALID_PARAMS as int)
                &&& !spec_failed(req, out, INVALID_REQUEST as int)
            } else {
                &&& (spec_failed(req, out, INVALID_PARAMS as int) || spec_failed(
                    req,
                    out,
                    INVALID_REQUEST as int,
                ))
                &&& s1 == s0
                &&& spec_conn_state(s1.connections@, conn_id) != Some(LifecycleState::Ready)
                    || spec_conn_state(s0.connections@, conn_id) == Some(LifecycleState::Ready)
            }
        }),
{
}

/// Lifecycle progress composes: if no connection moved backwards over
/// one step, nor over the next, none moved backwards over both — so a
/// whole session of dispatches keeps every lifecycle state
/// monotonically non-decreasing.
pub proof fn lemma_monotone_composes(
    c0: Seq<crate::lifecycle::Connection>,
    c1: Seq<crate::lifecycle::Connection>,
    c2: Seq<crate::lifecycle::Connection>,
)
    requires
        crate::server::spec_conns_monotone(c0, c1),
        crate::server::spec_conns_monotone(c1, c2),
    ensures
        crate::server::spec_conns_monotone(c0, c2),
{
}

/// Registration is last-write-wins: after registering a handler under
/// a key, any handler a lookup of that key can return is the newly
/// registered one — calls dispatched afterwards reach only it.
pub proof fn lemma_last_write_wins<M, H>(
    r0: Registry<M, H>,
    r1: Registry<M, H>,
    key: String,
    meta: M,
    handler: H,
    h: H,
)
    requires
        Registry::spec_add_effect(r0, r1, key, meta, handler),
        exists|i: int|
            0 <= i < r1.entries@.len() && #[trigger] r1.entries@[i].key@ == key@ && h
                == r1.entries@[i].handler,
    ensures
        h == handler,
{
    let i = choose|i: int|
        0 <= i < r1.entries@.len() && #[trigger] r1.entries@[i].key@ == key@ && h
            == r1.entries@[i].handler;
}

/// A next cursor returned by a listing resumes exactly where the page
/// ended: the decimal token of a position within the listing parses
/// back to that position, so chained pages tile the listing in order
/// with no gap and no overlap.
pub proof fn lemma_cursor_round_trip(pos: u64, len: int)
    requires
        0 <= pos as int <= len,
    ensures
        crate::registry::spec_cursor_pos(Some(spec_dec_text(pos as nat)), len) == Some(
            pos as int,
        ),
{
    lemma_dec_text_val(pos as nat);
}

/// Chained pages tile the listing: the part of the listing a page was
/// cut from is exactly that page followed by the part the next cursor
/// points at, so following cursors to the end visits every entry once,
/// in registration order.
pub proof fn lemma_pages_tile<A>(s: Seq<A>, page_size: int, start: int)
    requires
        0 < page_size,
        0 <= start <= s.len(),
    ensures
        ({
            let end = if start + page_size <= s.len() {
                start + page_size
            } else {
                s.len() as int
            };
            s.subrange(start, s.len() as int) == s.subrange(start, end) + s.subrange(
                end,
                s.len() as int,
            )
        }),
{
    let end = if start + page_size <= s.len() {
        start + page_size
    } else {
        s.len() as int
    };
    assert(s.subrange(start, s.len() as int) =~= s.subrange(start, end) + s.subrange(
        end,
        s.len() as int,
    ));
}

/// Best-effort delivery reaches a subscriber exactly once: in any
/// target list without duplicates that contains a connection, there is
/// exactly one position carrying it; and a connection no longer
/// subscribed is not in the list at all.
pub proof fn lemma_updated_push_exactly_once(targets: Seq<u64>, conn: u64)
    requires
        targets.no_duplicates(),
        targets.contains(conn),
    ensures
        exists|i: int| 0 <= i < targets.len() && targets[i] == conn,
        forall|i: int, j: int|
            0 <= i < targets.len() && 0 <= j < targets.len() && targets[i] == conn && targets[j]
                == conn ==> i == j,
{
    let w = choose|i: int| 0 <= i < targets.len() && targets[i] == conn;
}

/// A connection that survives a failed call stays usable: a ping
/// dispatched on any connection that is not Closed is answered
/// successfully, whatever happened before.
pub proof fn lemma_ping_always_answered<T, R, P>(
    s0: McpServer<T, R, P>,
    s1: McpServer<T, R, P>,
    conn_id: u64,
    req: JsonRpcRequest,
    out: Outcome,
)
    requires
        McpServer::spec_dispatch(s0, s1, conn_id, req, out),
        req.method@ == "ping"@,
        match spec_conn_state(s0.connections@, conn_id) {
            Some(st) => st != LifecycleState::Closed,
            None => false,
        },
    ensures
        out == Outcome::Reply(Reply { id: req.id, body: ReplyBody::Pong }),
        s1 == s0,
{
    reveal_strlit("ping");
    reveal_strlit("initialize");
    assert("ping"@.len() == 4);
    assert("initialize"@.len() == 10);
    assert(req.method@ != "initialize"@);
}

/// Every returned tool list is a contiguous slice of one single
/// registry snapshot — the state the dispatcher answered from — never
/// a mix of entries from two different states.
pub proof fn lemma_list_is_one_snapshot<T, R, P>(
    s0: McpServer<T, R, P>,
    s1: McpServer<T, R, P>,
    conn_id: u64,
    req: JsonRpcRequest,
    out: Outcome,
)
    requires
        McpServer::spec_dispatch(s0, s1, conn_id, req, out),
        req.method@ == "tools/list"@,
    ensures
        ({
            match out {
                Outcome::Reply(rep) => match rep.body {
                    ReplyBody::ToolList(lr) => exists|start: int, end: int|
                        0 <= start <= end <= s0.tools.entries@.len() && lr@.tools == #[trigger] s0
                            .tools.spec_metas().subrange(start, end),
                    _ => true,
                },
                _ => true,
            }
        }),
{
    reveal_strlit("tools/list");
    reveal_strlit("initialize");
    reveal_strlit("ping");
    assert("tools/list"@[0] == 't');
    assert("initialize"@[0] == 'i');
    assert("ping"@.len() == 4);
    assert("tools/list"@.len() == 10);
    assert(req.method@ != "initialize"@);
    assert(req.method@ != "ping"@);
    match spec_conn_state(s0.connections@, conn_id) {
        None => (),
        Some(st) => {
            if crate::server::spec_gate_allows(req.method@, st) {
                match crate::decode::spec_cursor_param(spec_params_view(req)) {
                    None => (),
                    Some(c) => {
                        match crate::registry::spec_cursor_pos(
                            c,
                            s0.tools.entries@.len() as int,
                        ) {
                            None => (),
                            Some(start) => {
                                match c {
                                    Some(cs) => crate::text::lemma_dec_val_nonneg(cs),
                                    None => (),
                                }
                                let len = s0.tools.entries@.len() as int;
                                let end = if start + s0.page_size <= len {
                                    start + s0.page_size
                                } else {
                                    len
                                };
                                match out {
                                    Outcome::Reply(rep) => match rep.body {
                                        ReplyBody::ToolList(lr) => {
                                            assert(lr@.tools == s0.tools.spec_metas().subrange(
                                                start,
                                                end,
                                            ));
                                        },
                                        _ => (),
                                    },
                                    _ => (),
                                }
                            },
                        }
                    },
                }
            }
        },
    }
}

} // verus!
