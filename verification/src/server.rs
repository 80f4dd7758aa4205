//! The life of an endpoint that serves handlers over connections: it accepts
//! until it is told to stop, then gives the open connections a while to
//! close. What is decided here; the sockets are somebody else's.

use vstd::prelude::*;

verus! {

/// The time that open connections are given to close, in seconds.
pub const DRAIN_SECONDS: u64 = 10;

/// Where the endpoint stands.
#[derive(Debug, Clone, Copy, PartialEq, Eq, Structural)]
pub enum ServerState {
    /// It accepts connections.
    Accepting,
    /// It accepts no more and waits for the open connections to close.
    Draining,
    /// It is done.
    Stopped,
}

/// What happened.
#[derive(Debug, Clone, Copy, PartialEq, Eq, Structural)]
pub enum ServerEvent {
    /// A connection came in.
    Connection,
    /// The signal to shut down came in.
    Shutdown,
    /// Every open connection has closed.
    Drained,
    /// The time to close has run out.
    DrainTimeout,
}

/// What to do about it.
#[derive(Debug, Clone, Copy, PartialEq, Eq, Structural)]
pub enum ServerAction {
    /// Serve the connection beside the others, and go on accepting.
    Serve,
    /// Stop accepting, and wait for the open connections to close, for at
    /// most this many seconds.
    Drain { seconds: u64 },
    /// Return. `timed_out` says whether connections were still open.
    Finish { timed_out: bool },
    /// Nothing.
    Ignore,
}

/// The step of the endpoint: the state after an event, and what to do.
///
/// - While accepting, a connection is served and a shutdown signal starts the
///   draining, for [`DRAIN_SECONDS`].
/// - While draining, the endpoint finishes when the connections have closed
///   or the time has run out, whichever comes first.
/// - Anything else is ignored.
pub open spec fn step_spec(state: ServerState, event: ServerEvent) -> (ServerState, ServerAction) {
    match (state, event) {
        (ServerState::Accepting, ServerEvent::Connection) => (
            ServerState::Accepting,
            ServerAction::Serve,
        ),
        (ServerState::Accepting, ServerEvent::Shutdown) => (
            ServerState::Draining,
            ServerAction::Drain { seconds: DRAIN_SECONDS },
        ),
        (ServerState::Draining, ServerEvent::Drained) => (
            ServerState::Stopped,
            ServerAction::Finish { timed_out: false },
        ),
        (ServerState::Draining, ServerEvent::DrainTimeout) => (
            ServerState::Stopped,
            ServerAction::Finish { timed_out: true },
        ),
        _ => (state, ServerAction::Ignore),
    }
}

/// The step of the endpoint: see [`step_spec`].
pub fn step(state: ServerState, event: ServerEvent) -> (r: (ServerState, ServerAction))
    ensures
        r == step_spec(state, event),
{
    match (state, event) {
        (ServerState::Accepting, ServerEvent::Connection) => (
            ServerState::Accepting,
            ServerAction::Serve,
        ),
        (ServerState::Accepting, ServerEvent::Shutdown) => (
            ServerState::Draining,
            ServerAction::Drain { seconds: DRAIN_SECONDS },
        ),
        (ServerState::Draining, ServerEvent::Drained) => (
            ServerState::Stopped,
            ServerAction::Finish { timed_out: false },
        ),
        (ServerState::Draining, ServerEvent::DrainTimeout) => (
            ServerState::Stopped,
            ServerAction::Finish { timed_out: true },
        ),
        _ => (state, ServerAction::Ignore),
    }
}

/// The endpoint never goes back: a stopped endpoint stays stopped and does
/// nothing, and an endpoint that drains never serves again.
pub proof fn law_endpoint_winds_down(state: ServerState, event: ServerEvent)
    ensures
        state is Stopped ==> step_spec(state, event) == (state, ServerAction::Ignore),
        state is Draining ==> !(step_spec(state, event).0 is Accepting) && !(step_spec(
            state,
            event,
        ).1 is Serve),
        step_spec(state, event).1 is Serve ==> state is Accepting,
{
}

} // verus!
