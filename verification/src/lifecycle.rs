//! The per-connection lifecycle state machine.
//!
//! States advance along a single line and never move back; domain
//! operations are gated on `Ready`.

use vstd::prelude::*;

verus! {

/// The lifecycle state of one connection.
#[derive(Debug, Clone, Copy, PartialEq, Eq)]
pub enum LifecycleState {
    /// Accepted; no initialize exchange yet.
    Uninitialized,
    /// An initialize exchange is being handled.
    Initializing,
    /// The handshake succeeded; domain operations may run.
    Ready,
    /// A shutdown was begun; in-flight calls are draining.
    ShuttingDown,
    /// The connection is gone; nothing more may run.
    Closed,
}

/// The position of a state on the lifecycle line.
pub open spec fn spec_state_rank(s: LifecycleState) -> int {
    match s {
        LifecycleState::Uninitialized => 0,
        LifecycleState::Initializing => 1,
        LifecycleState::Ready => 2,
        LifecycleState::ShuttingDown => 3,
        LifecycleState::Closed => 4,
    }
}

/// One connection: its identifier and where it stands in the lifecycle.
#[derive(Debug, Clone, Copy, PartialEq, Eq)]
pub struct Connection {
    /// The identifier the transport assigned on accept.
    pub id: u64,
    /// The lifecycle state.
    pub state: LifecycleState,
}

} // verus!
