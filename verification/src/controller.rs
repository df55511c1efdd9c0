//! The controller loop of the peer-to-peer sample.
//!
//! The loop waits at once on the network, on the forwarder service and on a
//! command channel fed by the shell.  Network progress needs no action;
//! messages from peers are reported; an incoming stream gets a receiver; a
//! command to exit, or the command channel closing, ends the program.
use vstd::prelude::*;

verus! {

/// Service id of the forwarder service that the sample registers.
pub const FORWARDER_SERVICE: u16 = 179;

/// Tick of the peer-to-peer network, in milliseconds.
pub const NETWORK_TICK_MS: u64 = 100;

/// Commands that the shell sends to the controller loop.
#[derive(PartialEq, Eq, Structural, Debug, Clone, Copy)]
pub enum ControllerCommand {
    Exit,
}

/// What woke the controller loop up.
#[derive(PartialEq, Eq, Structural, Debug, Clone, Copy)]
pub enum ControllerEvent {
    /// The network made progress.
    Network,
    /// A peer sent a message of `data_len` bytes to this node.
    Unicast { data_len: usize },
    /// A peer broadcast a message of `data_len` bytes.
    Broadcast { data_len: usize },
    /// A peer opened a stream to this node.
    Stream,
    /// The command channel yielded a command, or `None` when it closed.
    Command(Option<ControllerCommand>),
}

/// What the controller loop does next.
#[derive(PartialEq, Eq, Structural, Debug, Clone, Copy)]
pub enum ControllerAction {
    /// Keep waiting.
    Continue,
    /// Report a unicast message of `data_len` bytes, then keep waiting.
    ReportUnicast { data_len: usize },
    /// Report a broadcast message of `data_len` bytes, then keep waiting.
    ReportBroadcast { data_len: usize },
    /// Start receiving the stream in its own task, then keep waiting.
    ReceiveStream,
    /// Leave the loop and end the process with status `code`.
    Exit { code: i32 },
}

/// The controller's answer to an event.
pub open spec fn controller_answer(event: ControllerEvent) -> ControllerAction {
    match event {
        ControllerEvent::Network => ControllerAction::Continue,
        ControllerEvent::Unicast { data_len } => ControllerAction::ReportUnicast { data_len },
        ControllerEvent::Broadcast { data_len } => ControllerAction::ReportBroadcast { data_len },
        ControllerEvent::Stream => ControllerAction::ReceiveStream,
        ControllerEvent::Command(_) => ControllerAction::Exit { code: 0 },
    }
}

/// Decide what to do on an event.  The loop ends exactly on a command or
/// on the closing of the command channel, and then with status 0.
pub fn on_controller_event(event: ControllerEvent) -> (action: ControllerAction)
    ensures
        action == controller_answer(event),
        (action is Exit) <==> (event is Command),
{
    match event {
        ControllerEvent::Network => ControllerAction::Continue,
        ControllerEvent::Unicast { data_len } => ControllerAction::ReportUnicast { data_len },
        ControllerEvent::Broadcast { data_len } => ControllerAction::ReportBroadcast { data_len },
        ControllerEvent::Stream => ControllerAction::ReceiveStream,
        ControllerEvent::Command(Some(ControllerCommand::Exit)) => ControllerAction::Exit { code: 0 },
        ControllerEvent::Command(None) => ControllerAction::Exit { code: 0 },
    }
}

} // verus!
