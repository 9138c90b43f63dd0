//! The two transports as state machines. The machines decide; the
//! surrounding program reads, binds, runs handlers and writes, and reports
//! back what happened.

use vstd::prelude::*;
use crate::bootstrap::BootstrapError;

verus! {

/// Where a session over the duplex stream stands.
#[derive(Clone, Copy, Debug, PartialEq, Eq, Structural)]
pub enum StreamState {
    /// Not opened yet.
    Idle,
    /// Waiting for a message.
    Listening,
    /// Taking one message in.
    Reading,
    /// The message's handler runs.
    Dispatching,
    /// The response goes out.
    Writing,
    /// The stream ended; nothing more happens.
    Closed,
}

/// What can happen to a session over the duplex stream.
#[derive(Clone, Copy, Debug, PartialEq, Eq, Structural)]
pub enum StreamEvent {
    Opened,
    InputReady,
    MessageRead,
    HandlerFinished,
    ResponseWritten,
    StreamClosed,
    IoFailed,
}

/// What a session over the duplex stream asks for next.
#[derive(Clone, Copy, Debug, PartialEq, Eq, Structural)]
pub enum StreamAction {
    /// Wait until input is there.
    AwaitInput,
    /// Read one message.
    ReadMessage,
    /// Run the handler for the message that was read.
    Dispatch,
    /// Write the response and flush it at once.
    WriteAndFlush,
    /// End the session.
    Stop,
    /// The event does not belong to the state; do nothing.
    Nothing,
}

/// The state that follows `state` on `event`, and what to do then.
pub open spec fn stream_transition(state: StreamState, event: StreamEvent) -> (
    StreamState,
    StreamAction,
) {
    match (state, event) {
        (StreamState::Closed, _) => (StreamState::Closed, StreamAction::Nothing),
        (_, StreamEvent::StreamClosed) => (StreamState::Closed, StreamAction::Stop),
        (_, StreamEvent::IoFailed) => (StreamState::Closed, StreamAction::Stop),
        (StreamState::Idle, StreamEvent::Opened) => (
            StreamState::Listening,
            StreamAction::AwaitInput,
        ),
        (StreamState::Listening, StreamEvent::InputReady) => (
            StreamState::Reading,
            StreamAction::ReadMessage,
        ),
        (StreamState::Reading, StreamEvent::MessageRead) => (
            StreamState::Dispatching,
            StreamAction::Dispatch,
        ),
        (StreamState::Dispatching, StreamEvent::HandlerFinished) => (
            StreamState::Writing,
            StreamAction::WriteAndFlush,
        ),
        (StreamState::Writing, StreamEvent::ResponseWritten) => (
            StreamState::Listening,
            StreamAction::AwaitInput,
        ),
        _ => (state, StreamAction::Nothing),
    }
}

/// The state of a session that started idle, after `events`.
pub open spec fn stream_state_after(events: Seq<StreamEvent>) -> StreamState
    decreases events.len(),
{
    if events.len() == 0 {
        StreamState::Idle
    } else {
        stream_transition(stream_state_after(events.drop_last()), events.last()).0
    }
}

/// What a session that started idle asked for, in order, over `events`.
pub open spec fn stream_actions(events: Seq<StreamEvent>) -> Seq<StreamAction>
    decreases events.len(),
{
    if events.len() == 0 {
        Seq::empty()
    } else {
        stream_actions(events.drop_last()).push(
            stream_transition(stream_state_after(events.drop_last()), events.last()).1,
        )
    }
}

/// How often `action` occurs in `actions`.
pub open spec fn occurrences(actions: Seq<StreamAction>, action: StreamAction) -> nat
    decreases actions.len(),
{
    if actions.len() == 0 {
        0
    } else {
        occurrences(actions.drop_last(), action) + if actions.last() == action {
            1nat
        } else {
            0nat
        }
    }
}

/// A session serves its messages one after the other: whatever happens to
/// it, it has asked for as many responses to be written as handlers to be
/// run, or for one less while a handler runs. So the response to a message
/// is on its way out before the handler of the next message starts.
pub proof fn lemma_stream_serves_in_order(events: Seq<StreamEvent>)
    ensures
        occurrences(stream_actions(events), StreamAction::WriteAndFlush) <= occurrences(
            stream_actions(events),
            StreamAction::Dispatch,
        ) <= occurrences(stream_actions(events), StreamAction::WriteAndFlush) + 1,
        stream_state_after(events) is Dispatching <==> occurrences(
            stream_actions(events),
            StreamAction::Dispatch,
        ) == occurrences(stream_actions(events), StreamAction::WriteAndFlush) + 1
            && !(stream_state_after(events) is Closed),
    decreases events.len(),
{
    if events.len() > 0 {
        lemma_stream_serves_in_order(events.drop_last());
        let actions = stream_actions(events);
        assert(actions.drop_last() =~= stream_actions(events.drop_last()));
    }
}

/// A session over the duplex stream.
#[derive(Clone, Copy, Debug, PartialEq, Eq, Structural)]
pub struct StreamSession {
    pub state: StreamState,
}

impl StreamSession {
    /// A session that was not opened yet.
    pub fn new() -> (session: StreamSession)
        ensures
            session.state == StreamState::Idle,
    {
        StreamSession { state: StreamState::Idle }
    }

    /// Takes note of `event` and says what to do next.
    pub fn step(&mut self, event: StreamEvent) -> (action: StreamAction)
        ensures
            (final(self).state, action) == stream_transition(old(self).state, event),
    {
        let (next, action) = match (self.state, event) {
            (StreamState::Closed, _) => (StreamState::Closed, StreamAction::Nothing),
            (_, StreamEvent::StreamClosed) => (StreamState::Closed, StreamAction::Stop),
            (_, StreamEvent::IoFailed) => (StreamState::Closed, StreamAction::Stop),
            (StreamState::Idle, StreamEvent::Opened) => (
                StreamState::Listening,
                StreamAction::AwaitInput,
            ),
            (StreamState::Listening, StreamEvent::InputReady) => (
                StreamState::Reading,
                StreamAction::ReadMessage,
            ),
            (StreamState::Reading, StreamEvent::MessageRead) => (
                StreamState::Dispatching,
                StreamAction::Dispatch,
            ),
            (StreamState::Dispatching, StreamEvent::HandlerFinished) => (
                StreamState::Writing,
                StreamAction::WriteAndFlush,
            ),
            (StreamState::Writing, StreamEvent::ResponseWritten) => (
                StreamState::Listening,
                StreamAction::AwaitInput,
            ),
            (state, _) => (state, StreamAction::Nothing),
        };
        self.state = next;
        action
    }
}

/// Where the network transport stands.
#[derive(Clone, Copy, Debug, PartialEq, Eq, Structural)]
pub enum NetworkState {
    /// Nothing was tried yet.
    Unbound,
    /// Looking for a port; `candidate` is being tried.
    PortProbing { candidate: u16 },
    /// Listening on `port`; not yet announced.
    Bound { port: u16 },
    /// Accepting connections on `port`.
    Serving { port: u16 },
    /// No port could be had.
    Failed,
}

/// What can happen to the network transport.
#[derive(Clone, Copy, Debug, PartialEq, Eq, Structural)]
pub enum NetworkEvent {
    /// Startup asks for a listener, first on `port`.
    Start { port: u16 },
    /// The candidate port is in use.
    BindFailed,
    /// The candidate port was bound.
    BindSucceeded,
    /// The bound port was made known.
    Announced,
    /// A client connected.
    ConnectionAccepted,
}

/// What the network transport asks for next.
#[derive(Clone, Copy, Debug, PartialEq, Eq, Structural)]
pub enum NetworkAction {
    /// Try to bind `port`.
    TryBind { port: u16 },
    /// Make known that `port` was bound.
    Announce { port: u16 },
    /// Accept connections.
    Accept,
    /// Open a session of its own for the connection.
    OpenSession,
    /// Give up with this failure.
    Abort(BootstrapError),
    /// The event does not belong to the state; do nothing.
    Nothing,
}

/// The state that follows `state` on `event`, and what to do then.
pub open spec fn network_transition(state: NetworkState, event: NetworkEvent) -> (
    NetworkState,
    NetworkAction,
) {
    match (state, event) {
        (NetworkState::Unbound, NetworkEvent::Start { port }) => (
            NetworkState::PortProbing { candidate: port },
            NetworkAction::TryBind { port },
        ),
        (NetworkState::PortProbing { candidate }, NetworkEvent::BindFailed) => if candidate
            == u16::MAX {
            (NetworkState::Failed, NetworkAction::Abort(BootstrapError::NoAvailablePort))
        } else {
            (
                NetworkState::PortProbing { candidate: (candidate + 1) as u16 },
                NetworkAction::TryBind { port: (candidate + 1) as u16 },
            )
        },
        (NetworkState::PortProbing { candidate }, NetworkEvent::BindSucceeded) => (
            NetworkState::Bound { port: candidate },
            NetworkAction::Announce { port: candidate },
        ),
        (NetworkState::Bound { port }, NetworkEvent::Announced) => (
            NetworkState::Serving { port },
            NetworkAction::Accept,
        ),
        (NetworkState::Serving { port }, NetworkEvent::ConnectionAccepted) => (
            NetworkState::Serving { port },
            NetworkAction::OpenSession,
        ),
        _ => (state, NetworkAction::Nothing),
    }
}

/// The state after `failures` ports in a row were found in use, starting
/// from `state`.
pub open spec fn after_failures(state: NetworkState, failures: nat) -> NetworkState
    decreases failures,
{
    if failures == 0 {
        state
    } else {
        network_transition(
            after_failures(state, (failures - 1) as nat),
            NetworkEvent::BindFailed,
        ).0
    }
}

/// Probing that starts at `start` and finds `failures` ports in use tries
/// the port `start + failures` next, as long as there is such a port, and
/// has failed for good once there is none.
pub proof fn lemma_probing_counts_up(start: u16, failures: nat)
    ensures
        start + failures <= u16::MAX ==> after_failures(
            NetworkState::PortProbing { candidate: start },
            failures,
        ) == (NetworkState::PortProbing { candidate: (start + failures) as u16 }),
        start + failures > u16::MAX ==> after_failures(
            NetworkState::PortProbing { candidate: start },
            failures,
        ) == NetworkState::Failed,
    decreases failures,
{
    if failures > 0 {
        lemma_probing_counts_up(start, (failures - 1) as nat);
    }
}

/// The network transport.
#[derive(Clone, Copy, Debug, PartialEq, Eq, Structural)]
pub struct NetworkTransport {
    pub state: NetworkState,
}

impl NetworkTransport {
    /// A transport for which nothing was tried yet.
    pub fn new() -> (transport: NetworkTransport)
        ensures
            transport.state == NetworkState::Unbound,
    {
        NetworkTransport { state: NetworkState::Unbound }
    }

    /// Takes note of `event` and says what to do next.
    pub fn step(&mut self, event: NetworkEvent) -> (action: NetworkAction)
        ensures
            (final(self).state, action) == network_transition(old(self).state, event),
    {
        let (next, action) = match (self.state, event) {
            (NetworkState::Unbound, NetworkEvent::Start { port }) => (
                NetworkState::PortProbing { candidate: port },
                NetworkAction::TryBind { port },
            ),
            (NetworkState::PortProbing { candidate }, NetworkEvent::BindFailed) => {
                if candidate == u16::MAX {
                    (NetworkState::Failed, NetworkAction::Abort(BootstrapError::NoAvailablePort))
                } else {
                    (
                        NetworkState::PortProbing { candidate: candidate + 1 },
                        NetworkAction::TryBind { port: candidate + 1 },
                    )
                }
            },
            (NetworkState::PortProbing { candidate }, NetworkEvent::BindSucceeded) => (
                NetworkState::Bound { port: candidate },
                NetworkAction::Announce { port: candidate },
            ),
            (NetworkState::Bound { port }, NetworkEvent::Announced) => (
                NetworkState::Serving { port },
                NetworkAction::Accept,
            ),
            (NetworkState::Serving { port }, NetworkEvent::ConnectionAccepted) => (
                NetworkState::Serving { port },
                NetworkAction::OpenSession,
            ),
            (state, _) => (state, NetworkAction::Nothing),
        };
        self.state = next;
        action
    }
}

} // verus!
