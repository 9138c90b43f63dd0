use mcp_servers::bootstrap::BootstrapError;
use mcp_servers::session::{
    NetworkAction, NetworkEvent, NetworkState, NetworkTransport, StreamAction, StreamEvent,
    StreamSession, StreamState,
};

#[test]
fn stream_session_answers_before_it_reads_on() {
    let mut session = StreamSession::new();
    assert_eq!(session.state, StreamState::Idle);
    assert_eq!(session.step(StreamEvent::Opened), StreamAction::AwaitInput);
    let mut actions = Vec::new();
    for _ in 0..2 {
        actions.push(session.step(StreamEvent::InputReady));
        actions.push(session.step(StreamEvent::MessageRead));
        assert_eq!(session.state, StreamState::Dispatching);
        assert_eq!(session.step(StreamEvent::InputReady), StreamAction::Nothing);
        assert_eq!(session.step(StreamEvent::MessageRead), StreamAction::Nothing);
        assert_eq!(session.state, StreamState::Dispatching);
        actions.push(session.step(StreamEvent::HandlerFinished));
        assert_eq!(session.step(StreamEvent::MessageRead), StreamAction::Nothing);
        actions.push(session.step(StreamEvent::ResponseWritten));
        assert_eq!(session.state, StreamState::Listening);
    }
    assert_eq!(
        actions,
        vec![
            StreamAction::ReadMessage,
            StreamAction::Dispatch,
            StreamAction::WriteAndFlush,
            StreamAction::AwaitInput,
            StreamAction::ReadMessage,
            StreamAction::Dispatch,
            StreamAction::WriteAndFlush,
            StreamAction::AwaitInput,
        ]
    );
}

#[test]
fn stream_session_ends_on_closure_and_failure() {
    for ending in [StreamEvent::StreamClosed, StreamEvent::IoFailed] {
        for before in [
            vec![],
            vec![StreamEvent::Opened],
            vec![StreamEvent::Opened, StreamEvent::InputReady],
            vec![StreamEvent::Opened, StreamEvent::InputReady, StreamEvent::MessageRead],
        ] {
            let mut session = StreamSession::new();
            for event in before {
                session.step(event);
            }
            assert_eq!(session.step(ending), StreamAction::Stop);
            assert_eq!(session.state, StreamState::Closed);
            assert_eq!(session.step(StreamEvent::Opened), StreamAction::Nothing);
            assert_eq!(session.step(ending), StreamAction::Nothing);
            assert_eq!(session.state, StreamState::Closed);
        }
    }
}

#[test]
fn two_sessions_do_not_share_state() {
    let mut first = StreamSession::new();
    let mut second = StreamSession::new();
    first.step(StreamEvent::Opened);
    first.step(StreamEvent::InputReady);
    first.step(StreamEvent::MessageRead);
    assert_eq!(second.state, StreamState::Idle);
    second.step(StreamEvent::Opened);
    second.step(StreamEvent::InputReady);
    second.step(StreamEvent::MessageRead);
    assert_eq!(second.step(StreamEvent::HandlerFinished), StreamAction::WriteAndFlush);
    assert_eq!(first.state, StreamState::Dispatching);
    assert_eq!(first.step(StreamEvent::HandlerFinished), StreamAction::WriteAndFlush);
}

#[test]
fn network_transport_probes_then_serves() {
    let mut transport = NetworkTransport::new();
    assert_eq!(transport.state, NetworkState::Unbound);
    assert_eq!(transport.step(NetworkEvent::BindFailed), NetworkAction::Nothing);
    assert_eq!(
        transport.step(NetworkEvent::Start { port: 3000 }),
        NetworkAction::TryBind { port: 3000 }
    );
    assert_eq!(transport.step(NetworkEvent::BindFailed), NetworkAction::TryBind { port: 3001 });
    assert_eq!(transport.step(NetworkEvent::BindFailed), NetworkAction::TryBind { port: 3002 });
    assert_eq!(transport.step(NetworkEvent::BindSucceeded), NetworkAction::Announce { port: 3002 });
    assert_eq!(transport.state, NetworkState::Bound { port: 3002 });
    assert_eq!(transport.step(NetworkEvent::ConnectionAccepted), NetworkAction::Nothing);
    assert_eq!(transport.step(NetworkEvent::Announced), NetworkAction::Accept);
    assert_eq!(transport.step(NetworkEvent::ConnectionAccepted), NetworkAction::OpenSession);
    assert_eq!(transport.step(NetworkEvent::ConnectionAccepted), NetworkAction::OpenSession);
    assert_eq!(transport.state, NetworkState::Serving { port: 3002 });
    assert_eq!(transport.step(NetworkEvent::Start { port: 1 }), NetworkAction::Nothing);
}

#[test]
fn network_transport_gives_up_after_the_last_port() {
    let mut transport = NetworkTransport::new();
    transport.step(NetworkEvent::Start { port: 65534 });
    assert_eq!(transport.step(NetworkEvent::BindFailed), NetworkAction::TryBind { port: 65535 });
    assert_eq!(
        transport.step(NetworkEvent::BindFailed),
        NetworkAction::Abort(BootstrapError::NoAvailablePort)
    );
    assert_eq!(transport.state, NetworkState::Failed);
    assert_eq!(transport.step(NetworkEvent::BindSucceeded), NetworkAction::Nothing);
    assert_eq!(transport.state, NetworkState::Failed);
}
