//! The decisions of the two serving loops and of the process that runs them:
//! when the data plane serves, keeps accepting or stops, and when the end of
//! one task shuts the whole process down.

use vstd::prelude::*;

verus! {

/// Seconds that in-flight data-plane connections get to finish after
/// shutdown begins.
pub const DRAIN_GRACE_SECS: u64 = 10;
/// Milliseconds the process waits for the remaining tasks after shutdown.
pub const SETTLE_MILLIS: u64 = 250;

/// What the data plane's accept loop observed.
#[derive(Clone, Copy, Debug, PartialEq, Eq, Structural)]
pub enum AcceptEvent {
    /// A connection was accepted.
    Accepted,
    /// Accepting a connection failed.
    AcceptFailed,
    /// Shutdown was requested.
    ShutdownRequested,
}

/// What the accept loop does next.
#[derive(Clone, Copy, Debug, PartialEq, Eq, Structural)]
pub enum AcceptAction {
    /// Serve the accepted connection in its own task, then accept again.
    Serve,
    /// Accept the next connection.
    KeepAccepting,
    /// Leave the loop and drain the open connections.
    StopAccepting,
}

/// The accept loop's reaction: a failed accept is skipped, never fatal; only
/// a shutdown request ends the loop.
pub open spec fn on_accept_spec(event: AcceptEvent) -> AcceptAction {
    match event {
        AcceptEvent::Accepted => AcceptAction::Serve,
        AcceptEvent::AcceptFailed => AcceptAction::KeepAccepting,
        AcceptEvent::ShutdownRequested => AcceptAction::StopAccepting,
    }
}

/// The accept loop serves every accepted connection, skips every failed
/// accept, and stops only when shutdown is requested.
pub proof fn lemma_accept_loop(event: AcceptEvent)
    ensures
        (on_accept_spec(event) == AcceptAction::Serve) <==> event == AcceptEvent::Accepted,
        (on_accept_spec(event) == AcceptAction::KeepAccepting) <==> event == AcceptEvent::AcceptFailed,
        (on_accept_spec(event) == AcceptAction::StopAccepting) <==> event
            == AcceptEvent::ShutdownRequested,
{
}

/// What the accept loop does after `event`.
pub fn on_accept(event: AcceptEvent) -> (action: AcceptAction)
    ensures
        action == on_accept_spec(event),
        (action == AcceptAction::StopAccepting) == (event == AcceptEvent::ShutdownRequested),
{
    match event {
        AcceptEvent::Accepted => AcceptAction::Serve,
        AcceptEvent::AcceptFailed => AcceptAction::KeepAccepting,
        AcceptEvent::ShutdownRequested => AcceptAction::StopAccepting,
    }
}

/// The task of the process that ended first.
#[derive(Clone, Copy, Debug, PartialEq, Eq, Structural)]
pub enum TaskEnd {
    /// The S3 data plane stopped.
    DataPlane,
    /// The health/metrics server stopped.
    Health,
    /// The signal watcher finished: a shutdown signal arrived (and it has
    /// already requested shutdown) or it could not watch for signals.
    Signals,
}

/// Whether the process must request shutdown of the other tasks when `end`
/// happens first: either server stopping takes the whole process down.
pub fn requests_shutdown(end: TaskEnd) -> (cancel: bool)
    ensures
        cancel == (end != TaskEnd::Signals),
{
    match end {
        TaskEnd::DataPlane => true,
        TaskEnd::Health => true,
        TaskEnd::Signals => false,
    }
}

} // verus!
