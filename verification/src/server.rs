//! The server facade and request dispatcher.
//!
//! An `McpServer` owns the shared handler registries and the
//! subscription manager, and tracks one lifecycle state per accepted
//! connection.  The dispatcher routes one decoded JSON-RPC message at a
//! time: it gates on the connection's lifecycle state, resolves the
//! method, decodes and validates parameters, and either answers
//! directly or hands the embedding application an invocation to run
//! against the registered handler.  Handler execution itself is
//! asynchronous and happens outside; its outcome is normalized by the
//! `complete_*` functions.

use vstd::prelude::*;

use crate::decode::{
    decode_call_tool_params, decode_create_message_params, decode_cursor_param,
    decode_initialize_params, decode_set_level_params, decode_subscribe_params,
    decode_unsubscribe_params, spec_create_message_params, spec_cursor_param,
    spec_initialize_params, spec_name_and_arguments, spec_set_level_params, spec_uri_param,
};
use crate::dup::DeepClone;
use crate::error::McpError;
use crate::json::{JsonMembers, JsonValue};
use crate::lifecycle::{spec_state_rank, Connection, LifecycleState};
use crate::messages::{
    CreateMessageParams, InitializeResult, ListResourcesResult, ListToolsResult, LoggingLevel,
    ListPromptsResult, MCP_PROTOCOL_VERSION,
};
use crate::registry::Registry;
use crate::subscriptions::SubscriptionManager;
use crate::types::{
    JsonRpcError, JsonRpcRequest, PromptInfo, ResourceInfo, ServerCapabilities, ServerInfo,
    ToolInfo, ToolsCapability, ResourcesCapability, PromptsCapability, INVALID_PARAMS,
    INTERNAL_ERROR, INVALID_REQUEST, METHOD_NOT_FOUND, PROMPT_NOT_FOUND, RESOURCE_NOT_FOUND, TOOL_NOT_FOUND,
};
use crate::validation::{
    spec_initialize_params_ok, validate_initialize_params,
};

verus! {

// ===========================================================================
// Dispatch outcomes
// ===========================================================================
/// The body of a direct answer to a request.
#[derive(Debug, PartialEq, Eq)]
pub enum ReplyBody {
    /// Result of a successful initialize exchange.
    Init(InitializeResult),
    /// Result of a ping.
    Pong,
    /// One page of the tool listing.
    ToolList(ListToolsResult),
    /// Result of a completed tool call.
    ToolCall(crate::messages::CallToolResult),
    /// One page of the resource listing.
    ResourceList(ListResourcesResult),
    /// Contents of a completed resource read.
    ResourceRead(crate::messages::ReadResourceResult),
    /// The subscription was recorded.
    Subscribed,
    /// The subscription was dropped.
    Unsubscribed,
    /// One page of the prompt listing.
    PromptList(ListPromptsResult),
    /// Result of a completed prompt fetch.
    PromptGet(crate::messages::GetPromptResult),
    /// The logging level was set.
    LevelSet,
    /// A JSON-RPC error answer.
    Fail(JsonRpcError),
}

/// A direct answer: the request id it correlates to, and the body.
#[derive(Debug, PartialEq, Eq)]
pub struct Reply {
    /// The id of the request being answered.
    pub id: JsonValue,
    /// The payload or error.
    pub body: ReplyBody,
}

/// What the dispatcher decided for one request.
#[derive(Debug, PartialEq, Eq)]
pub enum Outcome {
    /// Answer directly.
    Reply(Reply),
    /// Run the tool registered under `name` and hand the result to
    /// `complete_tool_call`.
    InvokeTool { id: JsonValue, name: String, arguments: Option<JsonMembers> },
    /// Read from the resource registered under `uri` and hand the
    /// result to `complete_resource_read`.
    InvokeResourceRead { id: JsonValue, uri: String },
    /// Fetch the prompt registered under `name` and hand the result to
    /// `complete_prompt_get`.
    InvokePromptGet { id: JsonValue, name: String, arguments: Option<JsonMembers> },
    /// A decoded, validated sampling request for the collaborator-
    /// defined reverse path.
    ForwardSampling { id: JsonValue, params: CreateMessageParams },
}

/// Which handler kind a list-changed event concerns.
#[derive(Debug, Clone, Copy, PartialEq, Eq)]
pub enum ListChangedKind {
    Tools,
    Resources,
    Prompts,
}

/// A list-changed event raised by a registry mutation: the kind, and
/// the Ready connections to push the notification to.
#[derive(Debug, PartialEq, Eq)]
pub struct ListChangedEvent {
    /// The handler kind whose list changed.
    pub kind: ListChangedKind,
    /// The identifiers of the Ready connections.
    pub targets: Vec<u64>,
}

// ===========================================================================
// Connection bookkeeping
// ===========================================================================
/// The lifecycle state recorded for connection `id`, if it is known.
pub open spec fn spec_conn_state(conns: Seq<Connection>, id: u64) -> Option<LifecycleState> {
    if exists|i: int| 0 <= i < conns.len() && (#[trigger] conns[i]).id == id {
        Some(conns[choose|i: int| 0 <= i < conns.len() && (#[trigger] conns[i]).id == id].state)
    } else {
        None
    }
}

/// Whether some connection carries this identifier.
pub open spec fn spec_has_conn(conns: Seq<Connection>, id: u64) -> bool {
    spec_conn_state(conns, id) is Some
}

/// Connections keep their identity and order, and no state moves
/// backwards on the lifecycle line.
pub open spec fn spec_conns_monotone(c0: Seq<Connection>, c1: Seq<Connection>) -> bool {
    &&& c1.len() == c0.len()
    &&& forall|i: int|
        0 <= i < c0.len() ==> (#[trigger] c1[i]).id == c0[i].id && spec_state_rank(c1[i].state)
            >= spec_state_rank(c0[i].state)
}

/// Whether the lifecycle state admits this request method: initialize
/// only before the handshake, ping everywhere but after close, and
/// every other method only when Ready.
pub open spec fn spec_gate_allows(method: Seq<char>, state: LifecycleState) -> bool {
    if method == "initialize"@ {
        state == LifecycleState::Uninitialized
    } else if method == "ping"@ {
        state != LifecycleState::Closed
    } else {
        state == LifecycleState::Ready
    }
}

// ===========================================================================
// The server facade
// ===========================================================================
/// The MCP server: shared registries, the subscription manager, and one
/// lifecycle per accepted connection.  Generic over the collaborator-
/// supplied tool, resource, and prompt handler types, which the core
/// stores and hands out but never inspects.
pub struct McpServer<T, R, P> {
    /// The server identity returned by initialize.
    pub server_info: ServerInfo,
    /// The capability set returned by initialize.
    pub capabilities: ServerCapabilities,
    /// The tool registry.
    pub tools: Registry<ToolInfo, T>,
    /// The resource registry, keyed by URI.
    pub resources: Registry<ResourceInfo, R>,
    /// The prompt registry.
    pub prompts: Registry<PromptInfo, P>,
    /// Which connections subscribed to which resource URIs.
    pub subscriptions: SubscriptionManager,
    /// The accepted connections and their lifecycle states.
    pub connections: Vec<Connection>,
    /// The logging level set by the remote peer, if any.
    pub log_level: Option<LoggingLevel>,
    /// How many entries one listing page holds.
    pub page_size: usize,
}

impl<T, R, P> McpServer<T, R, P> {
    /// Registries and subscriptions are well-formed, connection
    /// identifiers are unique, no subscription entry outlives its
    /// connection, and pages are non-empty.
    pub open spec fn wf(&self) -> bool {
        &&& self.tools.wf()
        &&& self.resources.wf()
        &&& self.prompts.wf()
        &&& self.subscriptions.wf()
        &&& forall|i: int, j: int|
            0 <= i < j < self.connections@.len() ==> (#[trigger] self.connections@[i]).id != (
            #[trigger] self.connections@[j]).id
        &&& forall|u: Seq<char>, c: u64| #[trigger]
            self.subscriptions.spec_subscribed(u, c) ==> spec_has_conn(self.connections@, c)
        &&& self.page_size > 0
    }

    /// A fresh server with the given identity, empty registries, and
    /// capabilities declaring tools, resources (with subscriptions),
    /// and prompts, each with list-changed notifications.
    pub fn new(name: String, version: String) -> (r: Self)
        ensures
            r.wf(),
            r.server_info@.name == name@,
            r.server_info@.version == version@,
            r.tools.entries@.len() == 0,
            r.resources.entries@.len() == 0,
            r.prompts.entries@.len() == 0,
            r.subscriptions.entries@.len() == 0,
            r.connections@.len() == 0,
            r.log_level is None,
            r.capabilities.tools == Some(ToolsCapability { list_changed: Some(true) }),
            r.capabilities.resources == Some(
                ResourcesCapability { subscribe: Some(true), list_changed: Some(true) },
            ),
            r.capabilities.prompts == Some(PromptsCapability { list_changed: Some(true) }),
    {
        McpServer {
            server_info: ServerInfo { name, version },
            capabilities: ServerCapabilities {
                prompts: Some(PromptsCapability { list_changed: Some(true) }),
                resources: Some(ResourcesCapability { subscribe: Some(true), list_changed: Some(true) }),
                tools: Some(ToolsCapability { list_changed: Some(true) }),
                sampling: None,
            },
            tools: Registry::new(),
            resources: Registry::new(),
            prompts: Registry::new(),
            subscriptions: SubscriptionManager::new(),
            connections: Vec::new(),
            log_level: None,
            page_size: 50,
        }
    }

    /// The position of connection `id`, if it is known.
    fn conn_index(&self, id: u64) -> (r: Option<usize>)
        requires
            self.wf(),
        ensures
            match r {
                Some(i) => i < self.connections@.len() && self.connections@[i as int].id == id
                    && spec_conn_state(self.connections@, id) == Some(
                    self.connections@[i as int].state,
                ),
                None => spec_conn_state(self.connections@, id) is None,
            },
    {
        let mut i: usize = 0;
        while i < self.connections.len()
            invariant
                self.wf(),
                i <= self.connections@.len(),
                forall|j: int| 0 <= j < i ==> (#[trigger] self.connections@[j]).id != id,
            decreases self.connections@.len() - i,
        {
            if self.connections[i].id == id {
                proof {
                    let w = choose|w: int|
                        0 <= w < self.connections@.len() && (#[trigger] self.connections@[w]).id
                            == id;
                    assert(w == i as int);
                }
                return Some(i);
            }
            i += 1;
        }
        None
    }

    /// Accept a connection: record it Uninitialized.  Fails if the
    /// identifier is already taken.
    pub fn connect(&mut self, id: u64) -> (accepted: bool)
        requires
            old(self).wf(),
        ensures
            final(self).wf(),
            accepted == (spec_conn_state(old(self).connections@, id) is None),
            accepted ==> final(self).connections@ == old(self).connections@.push(
                Connection { id, state: LifecycleState::Uninitialized },
            ),
            !accepted ==> *final(self) == *old(self),
            final(self).tools == old(self).tools,
            final(self).resources == old(self).resources,
            final(self).prompts == old(self).prompts,
            final(self).subscriptions == old(self).subscriptions,
    {
        match self.conn_index(id) {
            Some(_) => false,
            None => {
                let ghost olds = self.connections@;
                self.connections.push(Connection { id, state: LifecycleState::Uninitialized });
                proof {
                    assert forall|i: int, j: int|
                        0 <= i < j < self.connections@.len() implies (
                    #[trigger] self.connections@[i]).id != (#[trigger] self.connections@[j]).id by {
                        assert(self.connections@[i] == olds[i]);
                        if j < olds.len() {
                            assert(self.connections@[j] == olds[j]);
                        }
                    }
                    assert forall|u: Seq<char>, c: u64| #[trigger] self.subscriptions.spec_subscribed(
                        u,
                        c,
                    ) implies spec_has_conn(self.connections@, c) by {
                        assert(old(self).subscriptions.spec_subscribed(u, c));
                        assert(spec_has_conn(olds, c));
                        let w = choose|w: int| 0 <= w < olds.len() && (#[trigger] olds[w]).id == c;
                        assert(self.connections@[w].id == c);
                    }
                }
                true
            },
        }
    }

    /// Tear a connection down: forget it and prune all of its
    /// subscription entries, so that none outlives it.
    pub fn disconnect(&mut self, id: u64)
        requires
            old(self).wf(),
        ensures
            final(self).wf(),
            spec_conn_state(final(self).connections@, id) is None,
            forall|u: Seq<char>, c: u64|
                final(self).subscriptions.spec_subscribed(u, c) <==> (old(
                    self,
                ).subscriptions.spec_subscribed(u, c) && c != id),
            final(self).tools == old(self).tools,
            final(self).resources == old(self).resources,
            final(self).prompts == old(self).prompts,
    {
        match self.conn_index(id) {
            Some(i) => {
                let ghost olds = self.connections@;
                let ghost gi = i as int;
                self.connections.remove(i);
                proof {
                    assert forall|a: int, b: int|
                        0 <= a < b < self.connections@.len() implies (
                    #[trigger] self.connections@[a]).id != (#[trigger] self.connections@[b]).id by {
                        let oa = if a < gi {
                            a
                        } else {
                            a + 1
                        };
                        let ob = if b < gi {
                            b
                        } else {
                            b + 1
                        };
                        assert(self.connections@[a] == olds[oa]);
                        assert(self.connections@[b] == olds[ob]);
                    }
                    if exists|w: int|
                        0 <= w < self.connections@.len() && (#[trigger] self.connections@[w]).id
                            == id {
                        let w = choose|w: int|
                            0 <= w < self.connections@.len() && (
                            #[trigger] self.connections@[w]).id == id;
                        let ow = if w < gi {
                            w
                        } else {
                            w + 1
                        };
                        assert(self.connections@[w] == olds[ow]);
                        assert(olds[gi].id == id);
                        assert(false);
                    }
                    assert forall|c: u64|
                        c != id && spec_has_conn(olds, c) implies spec_has_conn(
                        self.connections@,
                        c,
                    ) by {
                        let w = choose|w: int| 0 <= w < olds.len() && (#[trigger] olds[w]).id == c;
                        assert(olds[gi].id == id);
                        assert(w != gi);
                        let nw = if w < gi {
                            w
                        } else {
                            w - 1
                        };
                        assert(self.connections@[nw] == olds[w]);
                    }
                }
            },
            None => (),
        }
        let ghost conns1 = self.connections@;
        self.subscriptions.prune_connection(id);
        proof {
            assert forall|u: Seq<char>, c: u64| #[trigger] self.subscriptions.spec_subscribed(
                u,
                c,
            ) implies spec_has_conn(self.connections@, c) by {
                assert(old(self).subscriptions.spec_subscribed(u, c) && c != id);
                assert(spec_has_conn(old(self).connections@, c));
            }
        }
    }

    /// Move connection `id` from Ready to ShuttingDown: in-flight calls
    /// may drain, new domain requests are refused.
    pub fn begin_shutdown(&mut self, id: u64) -> (moved: bool)
        requires
            old(self).wf(),
        ensures
            final(self).wf(),
            moved == (spec_conn_state(old(self).connections@, id) == Some(LifecycleState::Ready)),
            moved ==> spec_conn_state(final(self).connections@, id) == Some(
                LifecycleState::ShuttingDown,
            ),
            !moved ==> *final(self) == *old(self),
            spec_conns_monotone(old(self).connections@, final(self).connections@),
            final(self).tools == old(self).tools,
            final(self).resources == old(self).resources,
            final(self).prompts == old(self).prompts,
            final(self).subscriptions == old(self).subscriptions,
    {
        match self.conn_index(id) {
            Some(i) => {
                if matches!(self.connections[i].state, LifecycleState::Ready) {
                    let ghost olds = self.connections@;
                    self.connections.set(
                        i,
                        Connection { id, state: LifecycleState::ShuttingDown },
                    );
                    proof {
                        self.lemma_conn_update(olds, i as int, id);
                        assert forall|u: Seq<char>, c: u64| #[trigger] self.subscriptions.spec_subscribed(
                            u,
                            c,
                        ) implies spec_has_conn(self.connections@, c) by {
                            assert(old(self).subscriptions.spec_subscribed(u, c));
                            assert(spec_has_conn(olds, c));
                        }
                    }
                    true
                } else {
                    false
                }
            },
            None => false,
        }
    }

    /// Move connection `id` from ShuttingDown to Closed and purge its
    /// subscriptions; calls still outstanding are abandoned.
    pub fn finish_shutdown(&mut self, id: u64) -> (moved: bool)
        requires
            old(self).wf(),
        ensures
            final(self).wf(),
            moved == (spec_conn_state(old(self).connections@, id) == Some(
                LifecycleState::ShuttingDown,
            )),
            moved ==> spec_conn_state(final(self).connections@, id) == Some(LifecycleState::Closed)
                && forall|u: Seq<char>, c: u64|
                final(self).subscriptions.spec_subscribed(u, c) <==> (old(
                    self,
                ).subscriptions.spec_subscribed(u, c) && c != id),
            !moved ==> *final(self) == *old(self),
            spec_conns_monotone(old(self).connections@, final(self).connections@),
            final(self).tools == old(self).tools,
            final(self).resources == old(self).resources,
            final(self).prompts == old(self).prompts,
    {
        match self.conn_index(id) {
            Some(i) => {
                if matches!(self.connections[i].state, LifecycleState::ShuttingDown) {
                    let ghost olds = self.connections@;
                    self.connections.set(i, Connection { id, state: LifecycleState::Closed });
                    proof {
                        self.lemma_conn_update(olds, i as int, id);
                    }
                    self.subscriptions.prune_connection(id);
                    proof {
                        assert forall|u: Seq<char>, c: u64| #[trigger] self.subscriptions.spec_subscribed(
                            u,
                            c,
                        ) implies spec_has_conn(self.connections@, c) by {
                            assert(old(self).subscriptions.spec_subscribed(u, c));
                            assert(spec_has_conn(olds, c));
                        }
                    }
                    true
                } else {
                    false
                }
            },
            None => false,
        }
    }

    /// The lifecycle state recorded for connection `id`.
    pub fn conn_state(&self, id: u64) -> (r: Option<LifecycleState>)
        requires
            self.wf(),
        ensures
            r == spec_conn_state(self.connections@, id),
    {
        match self.conn_index(id) {
            Some(i) => Some(self.connections[i].state),
            None => None,
        }
    }

    /// The Ready connections, each once: the audience of a broadcast.
    pub fn ready_targets(&self) -> (r: Vec<u64>)
        requires
            self.wf(),
        ensures
            r@.no_duplicates(),
            forall|c: u64|
                r@.contains(c) <==> spec_conn_state(self.connections@, c) == Some(
                    LifecycleState::Ready,
                ),
    {
        let mut out: Vec<u64> = Vec::new();
        let mut i: usize = 0;
        while i < self.connections.len()
            invariant
                self.wf(),
                i <= self.connections@.len(),
                out@.no_duplicates(),
                forall|c: u64| #[trigger]
                    out@.contains(c) <==> exists|j: int|
                        0 <= j < i && (#[trigger] self.connections@[j]).id == c
                            && self.connections@[j].state == LifecycleState::Ready,
            decreases self.connections@.len() - i,
        {
            if matches!(self.connections[i].state, LifecycleState::Ready) {
                let c = self.connections[i].id;
                proof {
                    if out@.contains(c) {
                        let j = choose|j: int|
                            0 <= j < i && (#[trigger] self.connections@[j]).id == c
                                && self.connections@[j].state == LifecycleState::Ready;
                        assert(false);
                    }
                }
                let ghost out0 = out@;
                out.push(c);
                proof {
                    assert(out@[out@.len() - 1] == c);
                    assert forall|a: int, b: int| 0 <= a < b < out@.len() implies out@[a]
                        != out@[b] by {
                        assert(out@[a] == out0[a]);
                        if b < out@.len() - 1 {
                            assert(out@[b] == out0[b]);
                        } else {
                            assert(out0.contains(out0[a]));
                        }
                    }
                    assert forall|c2: u64| #[trigger] out@.contains(c2) implies exists|j: int|
                        0 <= j < i + 1 && (#[trigger] self.connections@[j]).id == c2
                            && self.connections@[j].state == LifecycleState::Ready by {
                        let a = choose|a: int| 0 <= a < out@.len() && out@[a] == c2;
                        if a < out@.len() - 1 {
                            assert(out0[a] == c2);
                            assert(out0.contains(c2));
                        } else {
                            assert(self.connections@[i as int].id == c2);
                        }
                    }
                    assert forall|c2: u64|
                        exists|j: int|
                            0 <= j < i + 1 && (#[trigger] self.connections@[j]).id == c2
                                && self.connections@[j].state == LifecycleState::Ready implies
                        #[trigger] out@.contains(c2) by {
                        let j = choose|j: int|
                            0 <= j < i + 1 && (#[trigger] self.connections@[j]).id == c2
                                && self.connections@[j].state == LifecycleState::Ready;
                        if j < i {
                            assert(out0.contains(c2));
                            let a = choose|a: int| 0 <= a < out0.len() && out0[a] == c2;
                            assert(out@[a] == c2);
                        } else {
                            assert(out@[out@.len() - 1] == c2);
                        }
                    }
                }
            } else {
                proof {
                    assert forall|c2: u64| #[trigger] out@.contains(c2) implies exists|j: int|
                        0 <= j < i + 1 && (#[trigger] self.connections@[j]).id == c2
                            && self.connections@[j].state == LifecycleState::Ready by {
                        let j = choose|j: int|
                            0 <= j < i && (#[trigger] self.connections@[j]).id == c2
                                && self.connections@[j].state == LifecycleState::Ready;
                    }
                    assert forall|c2: u64|
                        exists|j: int|
                            0 <= j < i + 1 && (#[trigger] self.connections@[j]).id == c2
                                && self.connections@[j].state == LifecycleState::Ready implies
                        #[trigger] out@.contains(c2) by {
                        let j = choose|j: int|
                            0 <= j < i + 1 && (#[trigger] self.connections@[j]).id == c2
                                && self.connections@[j].state == LifecycleState::Ready;
                        assert(j < i);
                    }
                }
            }
            i += 1;
        }
        out
    }

    /// The Ready connections subscribed to `uri`, each once: the
    /// audience of a `resources/updated` push.  Delivery is
    /// best-effort: a push failure is reported back through
    /// `drop_subscriber`, never by blocking.
    pub fn updated_targets(&self, uri: &str) -> (r: Vec<u64>)
        requires
            self.wf(),
        ensures
            r@.no_duplicates(),
            forall|c: u64|
                r@.contains(c) <==> (self.subscriptions.spec_subscribed(uri@, c)
                    && spec_conn_state(self.connections@, c) == Some(LifecycleState::Ready)),
    {
        let subs = self.subscriptions.subscribers_of(uri);
        let mut out: Vec<u64> = Vec::new();
        let mut i: usize = 0;
        while i < subs.len()
            invariant
                self.wf(),
                i <= subs@.len(),
                subs@.no_duplicates(),
                forall|c: u64| #[trigger]
                    subs@.contains(c) <==> self.subscriptions.spec_subscribed(uri@, c),
                out@.no_duplicates(),
                forall|c: u64| #[trigger]
                    out@.contains(c) <==> exists|j: int|
                        0 <= j < i && subs@[j] == c && spec_conn_state(self.connections@, c)
                            == Some(LifecycleState::Ready),
            decreases subs@.len() - i,
        {
            let c = subs[i];
            let ready = match self.conn_state(c) {
                Some(LifecycleState::Ready) => true,
                _ => false,
            };
            if ready {
                proof {
                    if out@.contains(c) {
                        let j = choose|j: int|
                            0 <= j < i && subs@[j] == c && spec_conn_state(self.connections@, c)
                                == Some(LifecycleState::Ready);
                        assert(subs@[j] == subs@[i as int]);
                        assert(false);
                    }
                }
                let ghost out0 = out@;
                out.push(c);
                proof {
                    assert(out@[out@.len() - 1] == c);
                    assert forall|a: int, b: int| 0 <= a < b < out@.len() implies out@[a]
                        != out@[b] by {
                        assert(out@[a] == out0[a]);
                        if b < out@.len() - 1 {
                            assert(out@[b] == out0[b]);
                        } else {
                            assert(out0.contains(out0[a]));
                        }
                    }
                    assert forall|c2: u64| #[trigger] out@.contains(c2) implies exists|j: int|
                        0 <= j < i + 1 && subs@[j] == c2 && spec_conn_state(self.connections@, c2)
                            == Some(LifecycleState::Ready) by {
                        let a = choose|a: int| 0 <= a < out@.len() && out@[a] == c2;
                        if a < out@.len() - 1 {
                            assert(out0[a] == c2);
                            assert(out0.contains(c2));
                        }
                    }
                    assert forall|c2: u64|
                        exists|j: int|
                            0 <= j < i + 1 && subs@[j] == c2 && spec_conn_state(
                                self.connections@,
                                c2,
                            ) == Some(LifecycleState::Ready) implies #[trigger] out@.contains(
                        c2,
                    ) by {
                        let j = choose|j: int|
                            0 <= j < i + 1 && subs@[j] == c2 && spec_conn_state(
                                self.connections@,
                                c2,
                            ) == Some(LifecycleState::Ready);
                        if j < i {
                            assert(out0.contains(c2));
                            let a = choose|a: int| 0 <= a < out0.len() && out0[a] == c2;
                            assert(out@[a] == c2);
                        } else {
                            assert(out@[out@.len() - 1] == c2);
                        }
                    }
                }
            } else {
                proof {
                    assert forall|c2: u64| #[trigger] out@.contains(c2) implies exists|j: int|
                        0 <= j < i + 1 && subs@[j] == c2 && spec_conn_state(self.connections@, c2)
                            == Some(LifecycleState::Ready) by {
                        let j = choose|j: int|
                            0 <= j < i && subs@[j] == c2 && spec_conn_state(self.connections@, c2)
                                == Some(LifecycleState::Ready);
                    }
                    assert forall|c2: u64|
                        exists|j: int|
                            0 <= j < i + 1 && subs@[j] == c2 && spec_conn_state(
                                self.connections@,
                                c2,
                            ) == Some(LifecycleState::Ready) implies #[trigger] out@.contains(
                        c2,
                    ) by {
                        let j = choose|j: int|
                            0 <= j < i + 1 && subs@[j] == c2 && spec_conn_state(
                                self.connections@,
                                c2,
                            ) == Some(LifecycleState::Ready);
                        if j == i {
                            assert(subs@[i as int] == c2);
                            assert(c2 == c);
                            assert(false);
                        }
                    }
                }
            }
            i += 1;
        }
        proof {
            assert forall|c2: u64| #[trigger] out@.contains(c2) implies (
            self.subscriptions.spec_subscribed(uri@, c2) && spec_conn_state(self.connections@, c2)
                == Some(LifecycleState::Ready)) by {
                let j = choose|j: int|
                    0 <= j < subs@.len() && subs@[j] == c2 && spec_conn_state(
                        self.connections@,
                        c2,
                    ) == Some(LifecycleState::Ready);
                assert(subs@.contains(c2));
            }
            assert forall|c2: u64|
                self.subscriptions.spec_subscribed(uri@, c2) && spec_conn_state(
                    self.connections@,
                    c2,
                ) == Some(LifecycleState::Ready) implies #[trigger] out@.contains(c2) by {
                assert(subs@.contains(c2));
                let j = choose|j: int| 0 <= j < subs@.len() && subs@[j] == c2;
            }
        }
        out
    }

    /// A push to `target` failed on a closed or stalled channel: drop
    /// that subscriber for `uri` and carry on; delivery is best-effort.
    pub fn drop_subscriber(&mut self, target: u64, uri: &str)
        requires
            old(self).wf(),
        ensures
            final(self).wf(),
            !final(self).subscriptions.spec_subscribed(uri@, target),
            forall|u: Seq<char>, c: u64|
                !(u == uri@ && c == target) ==> final(self).subscriptions.spec_subscribed(u, c)
                    == old(self).subscriptions.spec_subscribed(u, c),
            final(self).tools == old(self).tools,
            final(self).resources == old(self).resources,
            final(self).prompts == old(self).prompts,
            final(self).connections == old(self).connections,
    {
        self.subscriptions.unsubscribe(target, uri);
    }

    /// The tool handler registered under `name`, if any.
    pub fn get_tool(&self, name: &str) -> (r: Option<&T>)
        ensures
            match r {
                Some(h) => exists|i: int|
                    0 <= i < self.tools.entries@.len() && #[trigger] self.tools.entries@[i].key@
                        == name@ && *h == self.tools.entries@[i].handler,
                None => !self.tools.spec_has_key(name@),
            },
    {
        self.tools.get(name)
    }

    /// The resource handler registered under `uri`, if any.
    pub fn get_resource(&self, uri: &str) -> (r: Option<&R>)
        ensures
            match r {
                Some(h) => exists|i: int|
                    0 <= i < self.resources.entries@.len()
                        && #[trigger] self.resources.entries@[i].key@ == uri@ && *h
                        == self.resources.entries@[i].handler,
                None => !self.resources.spec_has_key(uri@),
            },
    {
        self.resources.get(uri)
    }

    /// The prompt handler registered under `name`, if any.
    pub fn get_prompt(&self, name: &str) -> (r: Option<&P>)
        ensures
            match r {
                Some(h) => exists|i: int|
                    0 <= i < self.prompts.entries@.len()
                        && #[trigger] self.prompts.entries@[i].key@ == name@ && *h
                        == self.prompts.entries@[i].handler,
                None => !self.prompts.spec_has_key(name@),
            },
    {
        self.prompts.get(name)
    }

    /// Register a tool, last-write-wins, after validating its
    /// metadata.  A successful registration raises the list-changed
    /// event for tools, aimed at every Ready connection.
    pub fn add_tool(
        &mut self,
        name: String,
        description: Option<String>,
        input_schema: JsonValue,
        handler: T,
    ) -> (r: Result<ListChangedEvent, McpError>)
        requires
            old(self).wf(),
        ensures
            final(self).wf(),
            final(self).resources == old(self).resources,
            final(self).prompts == old(self).prompts,
            final(self).subscriptions == old(self).subscriptions,
            final(self).connections == old(self).connections,
            final(self).log_level == old(self).log_level,
            final(self).server_info == old(self).server_info,
            final(self).capabilities == old(self).capabilities,
            final(self).page_size == old(self).page_size,
            match r {
                Ok(ev) => {
                    &&& crate::validation::spec_tool_info_ok(
                        crate::types::ToolInfoView {
                            name: name@,
                            description: description.deep_view(),
                            input_schema: input_schema@,
                        },
                    )
                    &&& Registry::spec_add_effect(
                        old(self).tools,
                        final(self).tools,
                        name,
                        ToolInfo { name, description, input_schema },
                        handler,
                    )
                    &&& ev.kind == ListChangedKind::Tools
                    &&& ev.targets@.no_duplicates()
                    &&& forall|c: u64|
                        ev.targets@.contains(c) <==> spec_conn_state(final(self).connections@, c)
                            == Some(LifecycleState::Ready)
                },
                Err(e) => {
                    &&& *final(self) == *old(self)
                    &&& !crate::validation::spec_tool_info_ok(
                        crate::types::ToolInfoView {
                            name: name@,
                            description: description.deep_view(),
                            input_schema: input_schema@,
                        },
                    )
                    &&& e is Validation
                },
            },
    {
        let key = name.clone();
        let meta = ToolInfo { name, description, input_schema };
        match crate::validation::validate_tool_info(&meta) {
            Ok(_) => {
                self.tools.add(key, meta, handler);
                let targets = self.ready_targets();
                Ok(ListChangedEvent { kind: ListChangedKind::Tools, targets })
            },
            Err(e) => Err(e),
        }
    }

    /// Drop the tool registered under `name`.  A successful removal
    /// raises the list-changed event for tools.
    pub fn remove_tool(&mut self, name: &str) -> (r: Option<ListChangedEvent>)
        requires
            old(self).wf(),
        ensures
            final(self).wf(),
            final(self).resources == old(self).resources,
            final(self).prompts == old(self).prompts,
            final(self).subscriptions == old(self).subscriptions,
            final(self).connections == old(self).connections,
            final(self).log_level == old(self).log_level,
            final(self).server_info == old(self).server_info,
            final(self).capabilities == old(self).capabilities,
            final(self).page_size == old(self).page_size,
            Registry::spec_remove_effect(old(self).tools, final(self).tools, name@, r is Some),
            match r {
                Some(ev) => {
                    &&& ev.kind == ListChangedKind::Tools
                    &&& ev.targets@.no_duplicates()
                    &&& forall|c: u64|
                        ev.targets@.contains(c) <==> spec_conn_state(final(self).connections@, c)
                            == Some(LifecycleState::Ready)
                },
                None => old(self).tools.spec_has_key(name@) == false,
            },
    {
        if self.tools.remove(name) {
            let targets = self.ready_targets();
            Some(ListChangedEvent { kind: ListChangedKind::Tools, targets })
        } else {
            None
        }
    }

    /// Register a resource under its URI, last-write-wins, after
    /// validating its metadata.  A successful registration raises the
    /// list-changed event for resources.
    pub fn add_resource(
        &mut self,
        uri: String,
        name: String,
        description: Option<String>,
        mime_type: Option<String>,
        handler: R,
    ) -> (r: Result<ListChangedEvent, McpError>)
        requires
            old(self).wf(),
        ensures
            final(self).wf(),
            final(self).tools == old(self).tools,
            final(self).prompts == old(self).prompts,
            final(self).subscriptions == old(self).subscriptions,
            final(self).connections == old(self).connections,
            final(self).log_level == old(self).log_level,
            final(self).server_info == old(self).server_info,
            final(self).capabilities == old(self).capabilities,
            final(self).page_size == old(self).page_size,
            match r {
                Ok(ev) => {
                    &&& crate::validation::spec_resource_info_ok(
                        crate::types::ResourceInfoView {
                            uri: uri@,
                            name: name@,
                            description: description.deep_view(),
                            mime_type: mime_type.deep_view(),
                        },
                    )
                    &&& Registry::spec_add_effect(
                        old(self).resources,
                        final(self).resources,
                        uri,
                        ResourceInfo { uri, name, description, mime_type },
                        handler,
                    )
                    &&& ev.kind == ListChangedKind::Resources
                    &&& ev.targets@.no_duplicates()
                    &&& forall|c: u64|
                        ev.targets@.contains(c) <==> spec_conn_state(final(self).connections@, c)
                            == Some(LifecycleState::Ready)
                },
                Err(e) => {
                    &&& *final(self) == *old(self)
                    &&& !crate::validation::spec_resource_info_ok(
                        crate::types::ResourceInfoView {
                            uri: uri@,
                            name: name@,
                            description: description.deep_view(),
                            mime_type: mime_type.deep_view(),
                        },
                    )
                    &&& e is Validation
                },
            },
    {
        let key = uri.clone();
        let meta = ResourceInfo { uri, name, description, mime_type };
        match crate::validation::validate_resource_info(&meta) {
            Ok(_) => {
                self.resources.add(key, meta, handler);
                let targets = self.ready_targets();
                Ok(ListChangedEvent { kind: ListChangedKind::Resources, targets })
            },
            Err(e) => Err(e),
        }
    }

    /// Drop the resource registered under `uri`.  A successful removal
    /// raises the list-changed event for resources.
    pub fn remove_resource(&mut self, uri: &str) -> (r: Option<ListChangedEvent>)
        requires
            old(self).wf(),
        ensures
            final(self).wf(),
            final(self).tools == old(self).tools,
            final(self).prompts == old(self).prompts,
            final(self).subscriptions == old(self).subscriptions,
            final(self).connections == old(self).connections,
            final(self).log_level == old(self).log_level,
            final(self).server_info == old(self).server_info,
            final(self).capabilities == old(self).capabilities,
            final(self).page_size == old(self).page_size,
            Registry::spec_remove_effect(old(self).resources, final(self).resources, uri@, r is Some),
            match r {
                Some(ev) => {
                    &&& ev.kind == ListChangedKind::Resources
                    &&& ev.targets@.no_duplicates()
                    &&& forall|c: u64|
                        ev.targets@.contains(c) <==> spec_conn_state(final(self).connections@, c)
                            == Some(LifecycleState::Ready)
                },
                None => old(self).resources.spec_has_key(uri@) == false,
            },
    {
        if self.resources.remove(uri) {
            let targets = self.ready_targets();
            Some(ListChangedEvent { kind: ListChangedKind::Resources, targets })
        } else {
            None
        }
    }

    /// Register a prompt, last-write-wins, after validating its
    /// metadata.  A successful registration raises the list-changed
    /// event for prompts.
    pub fn add_prompt(
        &mut self,
        name: String,
        description: Option<String>,
        arguments: Option<Vec<crate::types::PromptArgument>>,
        handler: P,
    ) -> (r: Result<ListChangedEvent, McpError>)
        requires
            old(self).wf(),
        ensures
            final(self).wf(),
            final(self).tools == old(self).tools,
            final(self).resources == old(self).resources,
            final(self).subscriptions == old(self).subscriptions,
            final(self).connections == old(self).connections,
            final(self).log_level == old(self).log_level,
            final(self).server_info == old(self).server_info,
            final(self).capabilities == old(self).capabilities,
            final(self).page_size == old(self).page_size,
            match r {
                Ok(ev) => {
                    &&& crate::validation::spec_prompt_info_ok(
                        crate::types::PromptInfoView {
                            name: name@,
                            description: description.deep_view(),
                            arguments: arguments.deep_view(),
                        },
                    )
                    &&& Registry::spec_add_effect(
                        old(self).prompts,
                        final(self).prompts,
                        name,
                        PromptInfo { name, description, arguments },
                        handler,
                    )
                    &&& ev.kind == ListChangedKind::Prompts
                    &&& ev.targets@.no_duplicates()
                    &&& forall|c: u64|
                        ev.targets@.contains(c) <==> spec_conn_state(final(self).connections@, c)
                            == Some(LifecycleState::Ready)
                },
                Err(e) => {
                    &&& *final(self) == *old(self)
                    &&& !crate::validation::spec_prompt_info_ok(
                        crate::types::PromptInfoView {
                            name: name@,
                            description: description.deep_view(),
                            arguments: arguments.deep_view(),
                        },
                    )
                    &&& e is Validation
                },
            },
    {
        let key = name.clone();
        let meta = PromptInfo { name, description, arguments };
        match crate::validation::validate_prompt_info(&meta) {
            Ok(_) => {
                self.prompts.add(key, meta, handler);
                let targets = self.ready_targets();
                Ok(ListChangedEvent { kind: ListChangedKind::Prompts, targets })
            },
            Err(e) => Err(e),
        }
    }

    /// Drop the prompt registered under `name`.  A successful removal
    /// raises the list-changed event for prompts.
    pub fn remove_prompt(&mut self, name: &str) -> (r: Option<ListChangedEvent>)
        requires
            old(self).wf(),
        ensures
            final(self).wf(),
            final(self).tools == old(self).tools,
            final(self).resources == old(self).resources,
            final(self).subscriptions == old(self).subscriptions,
            final(self).connections == old(self).connections,
            final(self).log_level == old(self).log_level,
            final(self).server_info == old(self).server_info,
            final(self).capabilities == old(self).capabilities,
            final(self).page_size == old(self).page_size,
            Registry::spec_remove_effect(old(self).prompts, final(self).prompts, name@, r is Some),
            match r {
                Some(ev) => {
                    &&& ev.kind == ListChangedKind::Prompts
                    &&& ev.targets@.no_duplicates()
                    &&& forall|c: u64|
                        ev.targets@.contains(c) <==> spec_conn_state(final(self).connections@, c)
                            == Some(LifecycleState::Ready)
                },
                None => old(self).prompts.spec_has_key(name@) == false,
            },
    {
        if self.prompts.remove(name) {
            let targets = self.ready_targets();
            Some(ListChangedEvent { kind: ListChangedKind::Prompts, targets })
        } else {
            None
        }
    }

    /// After updating position `i` to a connection with the same id,
    /// uniqueness holds and the recorded state is the new one.
    proof fn lemma_conn_update(&self, olds: Seq<Connection>, i: int, id: u64)
        requires
            0 <= i < olds.len(),
            self.connections@.len() == olds.len(),
            forall|a: int|
                0 <= a < olds.len() && a != i ==> #[trigger] self.connections@[a] == olds[a],
            self.connections@[i].id == olds[i].id,
            olds[i].id == id,
            forall|a: int, b: int|
                0 <= a < b < olds.len() ==> (#[trigger] olds[a]).id != (#[trigger] olds[b]).id,
        ensures
            forall|a: int, b: int|
                0 <= a < b < self.connections@.len() ==> (#[trigger] self.connections@[a]).id != (
                #[trigger] self.connections@[b]).id,
            spec_conn_state(self.connections@, id) == Some(self.connections@[i].state),
            forall|c: u64| spec_has_conn(self.connections@, c) == spec_has_conn(olds, c),
    {
        assert forall|a: int, b: int|
            0 <= a < b < self.connections@.len() implies (#[trigger] self.connections@[a]).id != (
        #[trigger] self.connections@[b]).id by {
            assert(self.connections@[a].id == olds[a].id);
            assert(self.connections@[b].id == olds[b].id);
        }
        assert(self.connections@[i].id == id);
        let w = choose|w: int|
            0 <= w < self.connections@.len() && (#[trigger] self.connections@[w]).id == id;
        if w != i {
            assert(self.connections@[w].id == olds[w].id);
        }
        assert forall|c: u64| spec_has_conn(self.connections@, c) == spec_has_conn(olds, c) by {
            if spec_has_conn(olds, c) {
                let a = choose|a: int| 0 <= a < olds.len() && (#[trigger] olds[a]).id == c;
                assert(self.connections@[a].id == olds[a].id);
            }
            if spec_has_conn(self.connections@, c) {
                let a = choose|a: int|
                    0 <= a < self.connections@.len() && (#[trigger] self.connections@[a]).id == c;
                assert(olds[a].id == self.connections@[a].id);
            }
        }
    }
}

// ===========================================================================
// The request dispatcher
// ===========================================================================
/// What the dispatcher decided for a notification.
#[derive(Debug, PartialEq, Eq)]
pub enum NoticeOutcome {
    /// Dropped silently; notifications carry no id to answer.
    Dropped,
    /// A structurally valid progress notification for the
    /// collaborator's diagnostics path.  The floating-point range of
    /// its fraction is outside this core's reach and is checked by the
    /// embedding application.
    ForwardProgress { params: Option<JsonValue> },
}

/// The outcome answers or forwards under the request's own id.
pub open spec fn spec_outcome_id(out: Outcome) -> JsonValue {
    match out {
        Outcome::Reply(rep) => rep.id,
        Outcome::InvokeTool { id, .. } => id,
        Outcome::InvokeResourceRead { id, .. } => id,
        Outcome::InvokePromptGet { id, .. } => id,
        Outcome::ForwardSampling { id, .. } => id,
    }
}

/// The outcome is a direct error answer to `req` with this code and no
/// attached data.
pub open spec fn spec_failed(req: JsonRpcRequest, out: Outcome, code: int) -> bool {
    &&& out matches Outcome::Reply(rep)
    &&& rep.id == req.id
    &&& rep.body matches ReplyBody::Fail(e) && e.code == code && e.data is None
}

/// The raw parameter block of a request, as a mathematical value.
pub open spec fn spec_params_view(req: JsonRpcRequest) -> Option<crate::json::JsonSpec> {
    match req.params {
        Some(p) => Some(p@),
        None => None,
    }
}

impl<T, R, P> McpServer<T, R, P> {
    /// What dispatching `initialize` means, once the lifecycle gate
    /// has checked that the connection is Uninitialized.  On
    /// well-formed parameters naming the protocol version this server
    /// speaks, the connection becomes Ready and the reply carries the
    /// server identity, its capabilities, and that version; otherwise
    /// the request is refused as invalid parameters and the connection
    /// remains Uninitialized.
    pub open spec fn spec_initialize_case(
        s0: Self,
        s1: Self,
        conn_id: u64,
        req: JsonRpcRequest,
        out: Outcome,
    ) -> bool {
        match spec_params_view(req) {
            Some(p) => match spec_initialize_params(p) {
                Some(ip) => if !spec_initialize_params_ok(ip) {
                    spec_failed(req, out, INVALID_PARAMS as int) && s1 == s0
                } else if ip.protocol_version == MCP_PROTOCOL_VERSION@ {
                    &&& out matches Outcome::Reply(rep)
                    &&& rep.id == req.id
                    &&& rep.body matches ReplyBody::Init(res)
                    &&& res@.protocol_version == ip.protocol_version
                    &&& res@.server_info == s0.server_info@
                    &&& res@.capabilities == s0.capabilities
                    &&& spec_conn_state(s1.connections@, conn_id) == Some(LifecycleState::Ready)
                    &&& s1.subscriptions == s0.subscriptions
                    &&& s1.log_level == s0.log_level
                } else {
                    spec_failed(req, out, INVALID_PARAMS as int) && s1 == s0
                },
                None => spec_failed(req, out, INVALID_PARAMS as int) && s1 == s0,
            },
            None => spec_failed(req, out, INVALID_PARAMS as int) && s1 == s0,
        }
    }

    /// What dispatching a paginated tool listing means: a malformed or
    /// stale cursor is invalid parameters; otherwise the page is the
    /// slice of the registration-ordered metadata at the cursor's
    /// position, and the next cursor is absent exactly when the page
    /// reaches the end.
    pub open spec fn spec_tools_list_case(s0: Self, s1: Self, req: JsonRpcRequest, out: Outcome) -> bool {
        match spec_cursor_param(spec_params_view(req)) {
            None => spec_failed(req, out, INVALID_PARAMS as int) && s1 == s0,
            Some(c) => match crate::registry::spec_cursor_pos(c, s0.tools.entries@.len() as int) {
                None => spec_failed(req, out, INVALID_PARAMS as int) && s1 == s0,
                Some(start) => {
                    let len = s0.tools.entries@.len() as int;
                    let end = if start + s0.page_size <= len {
                        start + s0.page_size
                    } else {
                        len
                    };
                    &&& out matches Outcome::Reply(rep)
                    &&& rep.id == req.id
                    &&& rep.body matches ReplyBody::ToolList(lr)
                    &&& lr@.tools == s0.tools.spec_metas().subrange(start, end)
                    &&& (match lr@.next_cursor {
                        Some(nc) => end < len && nc == crate::text::spec_dec_text(end as nat),
                        None => end == len,
                    })
                    &&& s1 == s0
                },
            },
        }
    }

    /// What dispatching a paginated resource listing means.
    pub open spec fn spec_resources_list_case(s0: Self, s1: Self, req: JsonRpcRequest, out: Outcome) -> bool {
        match spec_cursor_param(spec_params_view(req)) {
            None => spec_failed(req, out, INVALID_PARAMS as int) && s1 == s0,
            Some(c) => match crate::registry::spec_cursor_pos(
                c,
                s0.resources.entries@.len() as int,
            ) {
                None => spec_failed(req, out, INVALID_PARAMS as int) && s1 == s0,
                Some(start) => {
                    let len = s0.resources.entries@.len() as int;
                    let end = if start + s0.page_size <= len {
                        start + s0.page_size
                    } else {
                        len
                    };
                    &&& out matches Outcome::Reply(rep)
                    &&& rep.id == req.id
                    &&& rep.body matches ReplyBody::ResourceList(lr)
                    &&& lr@.resources == s0.resources.spec_metas().subrange(start, end)
                    &&& (match lr@.next_cursor {
                        Some(nc) => end < len && nc == crate::text::spec_dec_text(end as nat),
                        None => end == len,
                    })
                    &&& s1 == s0
                },
            },
        }
    }

    /// What dispatching a paginated prompt listing means.
    pub open spec fn spec_prompts_list_case(s0: Self, s1: Self, req: JsonRpcRequest, out: Outcome) -> bool {
        match spec_cursor_param(spec_params_view(req)) {
            None => spec_failed(req, out, INVALID_PARAMS as int) && s1 == s0,
            Some(c) => match crate::registry::spec_cursor_pos(
                c,
                s0.prompts.entries@.len() as int,
            ) {
                None => spec_failed(req, out, INVALID_PARAMS as int) && s1 == s0,
                Some(start) => {
                    let len = s0.prompts.entries@.len() as int;
                    let end = if start + s0.page_size <= len {
                        start + s0.page_size
                    } else {
                        len
                    };
                    &&& out matches Outcome::Reply(rep)
                    &&& rep.id == req.id
                    &&& rep.body matches ReplyBody::PromptList(lr)
                    &&& lr@.prompts == s0.prompts.spec_metas().subrange(start, end)
                    &&& (match lr@.next_cursor {
                        Some(nc) => end < len && nc == crate::text::spec_dec_text(end as nat),
                        None => end == len,
                    })
                    &&& s1 == s0
                },
            },
        }
    }

    /// What dispatching `tools/call` means: malformed or nameless
    /// parameters are invalid parameters; an unregistered name is the
    /// tool-not-found error; a registered one becomes an invocation of
    /// exactly that tool, carrying the decoded arguments.
    pub open spec fn spec_tools_call_case(s0: Self, s1: Self, req: JsonRpcRequest, out: Outcome) -> bool {
        match spec_params_view(req) {
            Some(p) => match spec_name_and_arguments(p) {
                Some(cp) => if cp.name.len() == 0 {
                    spec_failed(req, out, INVALID_PARAMS as int) && s1 == s0
                } else if !s0.tools.spec_has_key(cp.name) {
                    spec_failed(req, out, TOOL_NOT_FOUND as int) && s1 == s0
                } else {
                    &&& out matches Outcome::InvokeTool { id, name, arguments }
                    &&& id == req.id
                    &&& name@ == cp.name
                    &&& arguments.deep_view() == cp.arguments
                    &&& s1 == s0
                },
                None => spec_failed(req, out, INVALID_PARAMS as int) && s1 == s0,
            },
            None => spec_failed(req, out, INVALID_PARAMS as int) && s1 == s0,
        }
    }

    /// What dispatching `resources/read` means: the URI must be
    /// present and acceptable, and resolve in the resource registry;
    /// then the read becomes an invocation of that resource.
    pub open spec fn spec_resources_read_case(s0: Self, s1: Self, req: JsonRpcRequest, out: Outcome) -> bool {
        match spec_params_view(req) {
            Some(p) => match spec_uri_param(p) {
                Some(u) => if !(u.len() > 0 && crate::validation::spec_uri_ok(u)) {
                    spec_failed(req, out, INVALID_PARAMS as int) && s1 == s0
                } else if !s0.resources.spec_has_key(u) {
                    spec_failed(req, out, RESOURCE_NOT_FOUND as int) && s1 == s0
                } else {
                    &&& out matches Outcome::InvokeResourceRead { id, uri }
                    &&& id == req.id
                    &&& uri@ == u
                    &&& s1 == s0
                },
                None => spec_failed(req, out, INVALID_PARAMS as int) && s1 == s0,
            },
            None => spec_failed(req, out, INVALID_PARAMS as int) && s1 == s0,
        }
    }

    /// What dispatching `resources/subscribe` means: the URI must
    /// resolve in the resource registry; then the connection's
    /// membership is recorded (idempotently) and nothing else changes.
    pub open spec fn spec_subscribe_case(
        s0: Self,
        s1: Self,
        conn_id: u64,
        req: JsonRpcRequest,
        out: Outcome,
    ) -> bool {
        match spec_params_view(req) {
            Some(p) => match spec_uri_param(p) {
                Some(u) => if !s0.resources.spec_has_key(u) {
                    spec_failed(req, out, RESOURCE_NOT_FOUND as int) && s1 == s0
                } else {
                    &&& out matches Outcome::Reply(rep)
                    &&& rep.id == req.id
                    &&& rep.body matches ReplyBody::Subscribed
                    &&& s1.subscriptions.spec_subscribed(u, conn_id)
                    &&& forall|u2: Seq<char>, c2: u64|
                        !(u2 == u && c2 == conn_id) ==> s1.subscriptions.spec_subscribed(u2, c2)
                            == s0.subscriptions.spec_subscribed(u2, c2)
                    &&& s1.connections == s0.connections
                    &&& s1.log_level == s0.log_level
                },
                None => spec_failed(req, out, INVALID_PARAMS as int) && s1 == s0,
            },
            None => spec_failed(req, out, INVALID_PARAMS as int) && s1 == s0,
        }
    }

    /// What dispatching `resources/unsubscribe` means: the membership
    /// is dropped, with no error when it was absent, and nothing else
    /// changes.
    pub open spec fn spec_unsubscribe_case(
        s0: Self,
        s1: Self,
        conn_id: u64,
        req: JsonRpcRequest,
        out: Outcome,
    ) -> bool {
        match spec_params_view(req) {
            Some(p) => match spec_uri_param(p) {
                Some(u) => {
                    &&& out matches Outcome::Reply(rep)
                    &&& rep.id == req.id
                    &&& rep.body matches ReplyBody::Unsubscribed
                    &&& !s1.subscriptions.spec_subscribed(u, conn_id)
                    &&& forall|u2: Seq<char>, c2: u64|
                        !(u2 == u && c2 == conn_id) ==> s1.subscriptions.spec_subscribed(u2, c2)
                            == s0.subscriptions.spec_subscribed(u2, c2)
                    &&& s1.connections == s0.connections
                    &&& s1.log_level == s0.log_level
                },
                None => spec_failed(req, out, INVALID_PARAMS as int) && s1 == s0,
            },
            None => spec_failed(req, out, INVALID_PARAMS as int) && s1 == s0,
        }
    }

    /// What dispatching `prompts/get` means, with the prompt-not-found
    /// error on an unregistered name.
    pub open spec fn spec_prompts_get_case(s0: Self, s1: Self, req: JsonRpcRequest, out: Outcome) -> bool {
        match spec_params_view(req) {
            Some(p) => match spec_name_and_arguments(p) {
                Some(gp) => if gp.name.len() == 0 {
                    spec_failed(req, out, INVALID_PARAMS as int) && s1 == s0
                } else if !s0.prompts.spec_has_key(gp.name) {
                    spec_failed(req, out, PROMPT_NOT_FOUND as int) && s1 == s0
                } else {
                    &&& out matches Outcome::InvokePromptGet { id, name, arguments }
                    &&& id == req.id
                    &&& name@ == gp.name
                    &&& arguments.deep_view() == gp.arguments
                    &&& s1 == s0
                },
                None => spec_failed(req, out, INVALID_PARAMS as int) && s1 == s0,
            },
            None => spec_failed(req, out, INVALID_PARAMS as int) && s1 == s0,
        }
    }

    /// What dispatching `sampling/createMessage` means: the decoded,
    /// validated request is forwarded to the collaborator-defined
    /// reverse path; this server-role core defines no reverse-call
    /// mechanism of its own.
    pub open spec fn spec_sampling_case(s0: Self, s1: Self, req: JsonRpcRequest, out: Outcome) -> bool {
        match spec_params_view(req) {
            Some(p) => match spec_create_message_params(p) {
                Some(cp) => if !crate::validation::spec_create_message_params_ok(cp) {
                    spec_failed(req, out, INVALID_PARAMS as int) && s1 == s0
                } else {
                    &&& out matches Outcome::ForwardSampling { id, params }
                    &&& id == req.id
                    &&& params@ == cp
                    &&& s1 == s0
                },
                None => spec_failed(req, out, INVALID_PARAMS as int) && s1 == s0,
            },
            None => spec_failed(req, out, INVALID_PARAMS as int) && s1 == s0,
        }
    }

    /// What dispatching `logging/setLevel` means: the named level is
    /// recorded and nothing else changes.
    pub open spec fn spec_set_level_case(s0: Self, s1: Self, req: JsonRpcRequest, out: Outcome) -> bool {
        match spec_params_view(req) {
            Some(p) => match spec_set_level_params(p) {
                Some(lv) => {
                    &&& out matches Outcome::Reply(rep)
                    &&& rep.id == req.id
                    &&& rep.body matches ReplyBody::LevelSet
                    &&& s1.log_level == Some(lv)
                    &&& s1.connections == s0.connections
                    &&& s1.subscriptions == s0.subscriptions
                },
                None => spec_failed(req, out, INVALID_PARAMS as int) && s1 == s0,
            },
            None => spec_failed(req, out, INVALID_PARAMS as int) && s1 == s0,
        }
    }

    /// What one dispatch step means, whole: requests from unknown
    /// connections or ahead of their lifecycle state are refused as
    /// invalid requests without touching any handler or registry;
    /// methods outside the request catalog are method-not-found; the
    /// rest behave per method.
    pub open spec fn spec_dispatch(
        s0: Self,
        s1: Self,
        conn_id: u64,
        req: JsonRpcRequest,
        out: Outcome,
    ) -> bool {
        match spec_conn_state(s0.connections@, conn_id) {
            None => spec_failed(req, out, INVALID_REQUEST as int) && s1 == s0,
            Some(st) => if !spec_gate_allows(req.method@, st) {
                spec_failed(req, out, INVALID_REQUEST as int) && s1 == s0
            } else if req.method@ == "initialize"@ {
                Self::spec_initialize_case(s0, s1, conn_id, req, out)
            } else if req.method@ == "ping"@ {
                out == Outcome::Reply(Reply { id: req.id, body: ReplyBody::Pong }) && s1 == s0
            } else if req.method@ == "tools/list"@ {
                Self::spec_tools_list_case(s0, s1, req, out)
            } else if req.method@ == "tools/call"@ {
                Self::spec_tools_call_case(s0, s1, req, out)
            } else if req.method@ == "resources/list"@ {
                Self::spec_resources_list_case(s0, s1, req, out)
            } else if req.method@ == "resources/read"@ {
                Self::spec_resources_read_case(s0, s1, req, out)
            } else if req.method@ == "resources/subscribe"@ {
                Self::spec_subscribe_case(s0, s1, conn_id, req, out)
            } else if req.method@ == "resources/unsubscribe"@ {
                Self::spec_unsubscribe_case(s0, s1, conn_id, req, out)
            } else if req.method@ == "prompts/list"@ {
                Self::spec_prompts_list_case(s0, s1, req, out)
            } else if req.method@ == "prompts/get"@ {
                Self::spec_prompts_get_case(s0, s1, req, out)
            } else if req.method@ == "sampling/createMessage"@ {
                Self::spec_sampling_case(s0, s1, req, out)
            } else if req.method@ == "logging/setLevel"@ {
                Self::spec_set_level_case(s0, s1, req, out)
            } else {
                spec_failed(req, out, METHOD_NOT_FOUND as int) && s1 == s0
            },
        }
    }
}

/// A direct error answer under the request's id.
fn fail_reply(id: JsonValue, code: i32, msg: &str) -> (out: Outcome)
    ensures
        out matches Outcome::Reply(rep) ==> rep.id == id && (rep.body matches ReplyBody::Fail(e)
            && e.code == code && e.data is None),
        out is Reply,
{
    Outcome::Reply(
        Reply {
            id,
            body: ReplyBody::Fail(
                JsonRpcError { code, message: String::from_str(msg), data: None },
            ),
        },
    )
}

impl<T, R, P> McpServer<T, R, P> {
    /// Dispatch one request: gate on the connection's lifecycle state,
    /// resolve the method, decode and validate parameters, and answer
    /// or hand out an invocation, exactly as `spec_dispatch` says.
    /// Registries never change here, and no connection's lifecycle
    /// state moves backwards.
    pub fn handle_request(&mut self, conn_id: u64, request: JsonRpcRequest) -> (out: Outcome)
        requires
            old(self).wf(),
        ensures
            final(self).wf(),
            final(self).tools == old(self).tools,
            final(self).resources == old(self).resources,
            final(self).prompts == old(self).prompts,
            final(self).server_info == old(self).server_info,
            final(self).capabilities == old(self).capabilities,
            final(self).page_size == old(self).page_size,
            spec_conns_monotone(old(self).connections@, final(self).connections@),
            spec_outcome_id(out) == request.id,
            Self::spec_dispatch(*old(self), *final(self), conn_id, request, out),
    {
        let JsonRpcRequest { jsonrpc: _jsonrpc, id, method, params } = request;
        let idx = match self.conn_index(conn_id) {
            Some(i) => i,
            None => {
                return fail_reply(id, INVALID_REQUEST, "unknown connection");
            },
        };
        let st = self.connections[idx].state;
        let is_init = crate::text::str_eq(method.as_str(), crate::methods::INITIALIZE);
        let is_ping = crate::text::str_eq(method.as_str(), crate::methods::PING);
        let allowed = if is_init {
            matches!(st, LifecycleState::Uninitialized)
        } else if is_ping {
            !matches!(st, LifecycleState::Closed)
        } else {
            matches!(st, LifecycleState::Ready)
        };
        if !allowed {
            return fail_reply(id, INVALID_REQUEST, "method not allowed in this lifecycle state");
        }
        if is_init {
            match &params {
                Some(p) => match decode_initialize_params(p) {
                    Ok(ip) => match validate_initialize_params(&ip) {
                        Ok(_) => {
                            if crate::text::str_eq(
                                ip.protocol_version.as_str(),
                                MCP_PROTOCOL_VERSION,
                            ) {
                                let ghost olds = self.connections@;
                                self.connections.set(
                                    idx,
                                    Connection { id: conn_id, state: LifecycleState::Ready },
                                );
                                proof {
                                    self.lemma_conn_update(olds, idx as int, conn_id);
                                }
                                let res = InitializeResult {
                                    server_info: self.server_info.deep_clone(),
                                    capabilities: self.capabilities,
                                    protocol_version: ip.protocol_version,
                                };
                                Outcome::Reply(Reply { id, body: ReplyBody::Init(res) })
                            } else {
                                fail_reply(id, INVALID_PARAMS, "unsupported protocol version")
                            }
                        },
                        Err(_) => fail_reply(id, INVALID_PARAMS, "invalid initialize params"),
                    },
                    Err(_) => fail_reply(id, INVALID_PARAMS, "invalid initialize params"),
                },
                None => fail_reply(id, INVALID_PARAMS, "missing initialize params"),
            }
        } else if is_ping {
            Outcome::Reply(Reply { id, body: ReplyBody::Pong })
        } else if crate::text::str_eq(method.as_str(), crate::methods::TOOLS_LIST) {
            match decode_cursor_param(params.as_ref()) {
                Ok(cursor) => match self.tools.list_page(self.page_size, cursor.as_ref()) {
                    Ok(page) => {
                        let (tools, next_cursor) = page;
                        Outcome::Reply(
                            Reply {
                                id,
                                body: ReplyBody::ToolList(ListToolsResult { tools, next_cursor }),
                            },
                        )
                    },
                    Err(_) => fail_reply(id, INVALID_PARAMS, "invalid cursor"),
                },
                Err(_) => fail_reply(id, INVALID_PARAMS, "invalid list params"),
            }
        } else if crate::text::str_eq(method.as_str(), crate::methods::TOOLS_CALL) {
            match &params {
                Some(p) => match decode_call_tool_params(p) {
                    Ok(cp) => {
                        let crate::messages::CallToolParams { name, arguments } = cp;
                        if name.as_str().is_empty() {
                            fail_reply(id, INVALID_PARAMS, "tool name cannot be empty")
                        } else {
                            match self.tools.index_of(name.as_str()) {
                                Some(_) => Outcome::InvokeTool { id, name, arguments },
                                None => fail_reply(id, TOOL_NOT_FOUND, "tool not found"),
                            }
                        }
                    },
                    Err(_) => fail_reply(id, INVALID_PARAMS, "invalid tool call params"),
                },
                None => fail_reply(id, INVALID_PARAMS, "missing tool call params"),
            }
        } else if crate::text::str_eq(method.as_str(), crate::methods::RESOURCES_LIST) {
            match decode_cursor_param(params.as_ref()) {
                Ok(cursor) => match self.resources.list_page(self.page_size, cursor.as_ref()) {
                    Ok(page) => {
                        let (resources, next_cursor) = page;
                        Outcome::Reply(
                            Reply {
                                id,
                                body: ReplyBody::ResourceList(
                                    ListResourcesResult { resources, next_cursor },
                                ),
                            },
                        )
                    },
                    Err(_) => fail_reply(id, INVALID_PARAMS, "invalid cursor"),
                },
                Err(_) => fail_reply(id, INVALID_PARAMS, "invalid list params"),
            }
        } else if crate::text::str_eq(method.as_str(), crate::methods::RESOURCES_READ) {
            match &params {
                Some(p) => match crate::decode::decode_read_resource_params(p) {
                    Ok(rp) => match crate::validation::validate_read_resource_params(&rp) {
                        Ok(_) => {
                            match self.resources.index_of(rp.uri.as_str()) {
                                Some(_) => Outcome::InvokeResourceRead { id, uri: rp.uri },
                                None => fail_reply(id, RESOURCE_NOT_FOUND, "resource not found"),
                            }
                        },
                        Err(_) => fail_reply(id, INVALID_PARAMS, "invalid resource uri"),
                    },
                    Err(_) => fail_reply(id, INVALID_PARAMS, "invalid read params"),
                },
                None => fail_reply(id, INVALID_PARAMS, "missing read params"),
            }
        } else if crate::text::str_eq(method.as_str(), crate::methods::RESOURCES_SUBSCRIBE) {
            match &params {
                Some(p) => match decode_subscribe_params(p) {
                    Ok(sp) => {
                        match self.resources.index_of(sp.uri.as_str()) {
                            Some(_) => {
                                self.subscriptions.subscribe(conn_id, sp.uri);
                                Outcome::Reply(Reply { id, body: ReplyBody::Subscribed })
                            },
                            None => fail_reply(id, RESOURCE_NOT_FOUND, "resource not found"),
                        }
                    },
                    Err(_) => fail_reply(id, INVALID_PARAMS, "invalid subscribe params"),
                },
                None => fail_reply(id, INVALID_PARAMS, "missing subscribe params"),
            }
        } else if crate::text::str_eq(method.as_str(), crate::methods::RESOURCES_UNSUBSCRIBE) {
            match &params {
                Some(p) => match decode_unsubscribe_params(p) {
                    Ok(up) => {
                        self.subscriptions.unsubscribe(conn_id, up.uri.as_str());
                        Outcome::Reply(Reply { id, body: ReplyBody::Unsubscribed })
                    },
                    Err(_) => fail_reply(id, INVALID_PARAMS, "invalid unsubscribe params"),
                },
                None => fail_reply(id, INVALID_PARAMS, "missing unsubscribe params"),
            }
        } else if crate::text::str_eq(method.as_str(), crate::methods::PROMPTS_LIST) {
            match decode_cursor_param(params.as_ref()) {
                Ok(cursor) => match self.prompts.list_page(self.page_size, cursor.as_ref()) {
                    Ok(page) => {
                        let (prompts, next_cursor) = page;
                        Outcome::Reply(
                            Reply {
                                id,
                                body: ReplyBody::PromptList(
                                    ListPromptsResult { prompts, next_cursor },
                                ),
                            },
                        )
                    },
                    Err(_) => fail_reply(id, INVALID_PARAMS, "invalid cursor"),
                },
                Err(_) => fail_reply(id, INVALID_PARAMS, "invalid list params"),
            }
        } else if crate::text::str_eq(method.as_str(), crate::methods::PROMPTS_GET) {
            match &params {
                Some(p) => match crate::decode::decode_get_prompt_params(p) {
                    Ok(gp) => {
                        let crate::messages::GetPromptParams { name, arguments } = gp;
                        if name.as_str().is_empty() {
                            fail_reply(id, INVALID_PARAMS, "prompt name cannot be empty")
                        } else {
                            match self.prompts.index_of(name.as_str()) {
                                Some(_) => Outcome::InvokePromptGet { id, name, arguments },
                                None => fail_reply(id, PROMPT_NOT_FOUND, "prompt not found"),
                            }
                        }
                    },
                    Err(_) => fail_reply(id, INVALID_PARAMS, "invalid prompt params"),
                },
                None => fail_reply(id, INVALID_PARAMS, "missing prompt params"),
            }
        } else if crate::text::str_eq(method.as_str(), crate::methods::SAMPLING_CREATE_MESSAGE) {
            match &params {
                Some(p) => match decode_create_message_params(p) {
                    Ok(cp) => match crate::validation::validate_create_message_params(&cp) {
                        Ok(_) => Outcome::ForwardSampling { id, params: cp },
                        Err(_) => fail_reply(id, INVALID_PARAMS, "invalid sampling params"),
                    },
                    Err(_) => fail_reply(id, INVALID_PARAMS, "invalid sampling params"),
                },
                None => fail_reply(id, INVALID_PARAMS, "missing sampling params"),
            }
        } else if crate::text::str_eq(method.as_str(), crate::methods::LOGGING_SET_LEVEL) {
            match &params {
                Some(p) => match decode_set_level_params(p) {
                    Ok(sp) => {
                        self.log_level = Some(sp.level);
                        Outcome::Reply(Reply { id, body: ReplyBody::LevelSet })
                    },
                    Err(_) => fail_reply(id, INVALID_PARAMS, "invalid level params"),
                },
                None => fail_reply(id, INVALID_PARAMS, "missing level params"),
            }
        } else {
            fail_reply(id, METHOD_NOT_FOUND, "method not found")
        }
    }

    /// Dispatch one notification.  A notification ahead of Ready, with
    /// a method this core does not forward, or whose parameters fail
    /// the structural check, is dropped silently: it carries no id to
    /// answer.
    pub fn handle_notification(&self, conn_id: u64, notification: crate::types::JsonRpcNotification) -> (out: NoticeOutcome)
        requires
            self.wf(),
        ensures
            match spec_conn_state(self.connections@, conn_id) {
                Some(st) => {
                    if st == LifecycleState::Ready && notification.method@ == "progress"@ {
                        match notification.params {
                            Some(p) => if crate::validation::spec_progress_shape_ok(p@) {
                                out == (NoticeOutcome::ForwardProgress {
                                    params: notification.params,
                                })
                            } else {
                                out == NoticeOutcome::Dropped
                            },
                            None => out == NoticeOutcome::Dropped,
                        }
                    } else {
                        out == NoticeOutcome::Dropped
                    }
                },
                None => out == NoticeOutcome::Dropped,
            },
    {
        let ready = match self.conn_state(conn_id) {
            Some(LifecycleState::Ready) => true,
            _ => false,
        };
        if !ready {
            return NoticeOutcome::Dropped;
        }
        if crate::text::str_eq(notification.method.as_str(), crate::methods::PROGRESS) {
            match &notification.params {
                Some(p) => match crate::validation::validate_progress_shape(p) {
                    Ok(_) => NoticeOutcome::ForwardProgress { params: notification.params },
                    Err(_) => NoticeOutcome::Dropped,
                },
                None => NoticeOutcome::Dropped,
            }
        } else {
            NoticeOutcome::Dropped
        }
    }
}

// ===========================================================================
// Normalizing handler outcomes
// ===========================================================================
/// Normalize a finished tool call.  A handler-reported domain failure
/// travels inside a successful result (its error flag set by the
/// handler); an unexpected failure becomes the internal error and
/// leaks no detail, and the connection stays usable.
pub fn complete_tool_call(id: JsonValue, outcome: Result<crate::types::ToolResult, McpError>) -> (r:
    Reply)
    ensures
        r.id == id,
        match outcome {
            Ok(tr) => r.body matches ReplyBody::ToolCall(ctr) && ctr@.content == tr@.content
                && ctr@.is_error == tr@.is_error,
            Err(_) => r.body matches ReplyBody::Fail(e) && e.code == INTERNAL_ERROR as int
                && e.message@ == "Internal error"@ && e.data is None,
        },
{
    match outcome {
        Ok(tr) => {
            let crate::types::ToolResult { content, is_error } = tr;
            Reply {
                id,
                body: ReplyBody::ToolCall(crate::messages::CallToolResult { content, is_error }),
            }
        },
        Err(_) => Reply {
            id,
            body: ReplyBody::Fail(
                JsonRpcError {
                    code: INTERNAL_ERROR,
                    message: String::from_str("Internal error"),
                    data: None,
                },
            ),
        },
    }
}

/// Normalize a finished resource read; an unexpected failure becomes
/// the internal error and leaks no detail.
pub fn complete_resource_read(
    id: JsonValue,
    outcome: Result<Vec<crate::types::ResourceContent>, McpError>,
) -> (r: Reply)
    ensures
        r.id == id,
        match outcome {
            Ok(contents) => r.body matches ReplyBody::ResourceRead(rr) && rr@
                == contents.deep_view(),
            Err(_) => r.body matches ReplyBody::Fail(e) && e.code == INTERNAL_ERROR as int
                && e.message@ == "Internal error"@ && e.data is None,
        },
{
    match outcome {
        Ok(contents) => Reply {
            id,
            body: ReplyBody::ResourceRead(crate::messages::ReadResourceResult { contents }),
        },
        Err(_) => Reply {
            id,
            body: ReplyBody::Fail(
                JsonRpcError {
                    code: INTERNAL_ERROR,
                    message: String::from_str("Internal error"),
                    data: None,
                },
            ),
        },
    }
}

/// Normalize a finished prompt fetch; an unexpected failure becomes
/// the internal error and leaks no detail.
pub fn complete_prompt_get(
    id: JsonValue,
    outcome: Result<crate::types::PromptResult, McpError>,
) -> (r: Reply)
    ensures
        r.id == id,
        match outcome {
            Ok(pr) => r.body matches ReplyBody::PromptGet(g) && g@.description
                == pr@.description && g@.messages == pr@.messages,
            Err(_) => r.body matches ReplyBody::Fail(e) && e.code == INTERNAL_ERROR as int
                && e.message@ == "Internal error"@ && e.data is None,
        },
{
    match outcome {
        Ok(pr) => {
            let crate::types::PromptResult { description, messages } = pr;
            Reply {
                id,
                body: ReplyBody::PromptGet(
                    crate::messages::GetPromptResult { description, messages },
                ),
            }
        },
        Err(_) => Reply {
            id,
            body: ReplyBody::Fail(
                JsonRpcError {
                    code: INTERNAL_ERROR,
                    message: String::from_str("Internal error"),
                    data: None,
                },
            ),
        },
    }
}

} // verus!
