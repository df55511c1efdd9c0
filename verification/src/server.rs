//! Decisions of the QUIC server: its accept loop and the loop that serves
//! one connection.
use vstd::prelude::*;

verus! {

/// Period of the liveness report of a connection, in milliseconds.
pub const ALIVE_TICK_MS: u64 = 10;

/// What the accept loop does after `accept` returned.
#[derive(PartialEq, Eq, Structural, Debug, Clone, Copy)]
pub enum AcceptAction {
    /// Serve the incoming connection in its own task, then accept again.
    Serve,
    /// Nothing arrived (the endpoint no longer accepts): accept again.
    AcceptAgain,
}

/// Decide what to do with the result of `accept`: `incoming` tells whether
/// a connection attempt arrived.  The accept loop has no exit: when the
/// endpoint yields nothing it simply waits on `accept` again.
pub fn on_accept(incoming: bool) -> (action: AcceptAction)
    ensures
        incoming ==> action == AcceptAction::Serve,
        !incoming ==> action == AcceptAction::AcceptAgain,
{
    if incoming {
        AcceptAction::Serve
    } else {
        AcceptAction::AcceptAgain
    }
}

/// What woke the loop that serves a connection up.
#[derive(PartialEq, Eq, Structural, Debug, Clone, Copy)]
pub enum ConnectionEvent {
    /// The liveness timer ticked.
    Tick,
    /// The peer opened a unidirectional stream.
    StreamOpened,
    /// Accepting a stream failed (the connection is lost or closed).
    AcceptFailed,
}

/// What the loop that serves a connection does next.
#[derive(PartialEq, Eq, Structural, Debug, Clone, Copy)]
pub enum ConnectionAction {
    /// Report that the connection is alive and keep serving.
    ReportAlive,
    /// Receive the stream in its own task and keep serving.
    ServeStream,
    /// Report the error and stop serving the connection.
    Close,
}

/// The answer to an event on a connection.
pub open spec fn connection_answer(event: ConnectionEvent) -> ConnectionAction {
    match event {
        ConnectionEvent::Tick => ConnectionAction::ReportAlive,
        ConnectionEvent::StreamOpened => ConnectionAction::ServeStream,
        ConnectionEvent::AcceptFailed => ConnectionAction::Close,
    }
}

/// Decide what to do on an event of a connection.  A connection is served
/// until accepting a stream fails.
pub fn on_connection_event(event: ConnectionEvent) -> (action: ConnectionAction)
    ensures
        action == connection_answer(event),
        (action == ConnectionAction::Close) <==> (event == ConnectionEvent::AcceptFailed),
{
    match event {
        ConnectionEvent::Tick => ConnectionAction::ReportAlive,
        ConnectionEvent::StreamOpened => ConnectionAction::ServeStream,
        ConnectionEvent::AcceptFailed => ConnectionAction::Close,
    }
}

} // verus!
