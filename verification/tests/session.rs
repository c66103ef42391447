use tetra::agent::session::{Session, SessionAction, SessionEvent, SocketEvent};
use tetra::agent::websocket::{SessionError, TransportFrame};
use tetra::agent::{AgentCommand, AgentResponse, QueueError};

/// A session that has said hello and waits for messages.
fn greeted() -> Session {
    let (mut session, _) = Session::open("myhost", "1.2.3", None, "linux", "x86_64");
    assert!(matches!(session.advance(SessionEvent::Sent), Some(SessionAction::Read)));
    session
}

fn receive(session: &mut Session, received: SocketEvent) -> SessionAction {
    session.advance(SessionEvent::Received(received)).unwrap()
}

fn command() -> SocketEvent {
    SocketEvent::Frame(TransportFrame::Command {
        command: AgentCommand { id: "cmd-1".into(), ..Default::default() },
    })
}

fn error_of(action: SessionAction) -> String {
    match action {
        SessionAction::Send(TransportFrame::Error { error }) => error,
        other => panic!("{other:?}"),
    }
}

#[test]
fn session_says_hello_first() {
    let (_, action) = Session::open("myhost", "1.2.3", Some("box".into()), "linux", "x86_64");
    match action {
        SessionAction::Send(TransportFrame::Hello {
            host_id,
            agent_version,
            protocol_version,
            hostname,
            os,
            arch,
        }) => {
            assert_eq!(host_id, "myhost");
            assert_eq!(agent_version, "1.2.3");
            assert_eq!(protocol_version, "2026-06-29");
            assert_eq!(hostname.as_deref(), Some("box"));
            assert_eq!(os, "linux");
            assert_eq!(arch, "x86_64");
        }
        other => panic!("{other:?}"),
    }
}

#[test]
fn command_is_answered_before_the_next_message() {
    let mut session = greeted();
    match receive(&mut session, command()) {
        SessionAction::Dispatch(command) => assert_eq!(command.id, "cmd-1"),
        other => panic!("{other:?}"),
    }
    assert!(session.advance(SessionEvent::Received(command())).is_none());
    let response = AgentResponse { body: serde_json::Value::from("done") };
    match session.advance(SessionEvent::Dispatched(Ok(response))) {
        Some(SessionAction::Send(TransportFrame::Response { response })) => {
            assert_eq!(response.body, serde_json::Value::from("done"));
        }
        other => panic!("{other:?}"),
    }
    assert!(matches!(session.advance(SessionEvent::Sent), Some(SessionAction::Read)));
}

#[test]
fn full_queue_is_told_and_the_session_goes_on() {
    let mut session = greeted();
    receive(&mut session, command());
    let told = session.advance(SessionEvent::Dispatched(Err(QueueError::Full))).unwrap();
    assert_eq!(error_of(told), "Tetra command queue is full; retry after backoff");
    assert!(matches!(session.advance(SessionEvent::Sent), Some(SessionAction::Read)));
}

#[test]
fn closed_queue_is_told_and_ends_the_session() {
    let mut session = greeted();
    receive(&mut session, command());
    let told = session.advance(SessionEvent::Dispatched(Err(QueueError::Closed))).unwrap();
    assert_eq!(error_of(told), "Tetra command queue is unavailable");
    assert!(matches!(
        session.advance(SessionEvent::Sent),
        Some(SessionAction::Abort(SessionError::QueueClosed))
    ));
    assert!(session.advance(SessionEvent::Sent).is_none());
}

#[test]
fn frames_that_the_control_plane_should_not_send_are_rejected() {
    let frames = vec![
        TransportFrame::hello("h", "v", None, "o", "a"),
        TransportFrame::Response { response: AgentResponse::default() },
        TransportFrame::Pong { id: None, sent_at: None },
        TransportFrame::Error { error: "x".into() },
    ];
    let mut session = greeted();
    for frame in frames {
        let told = receive(&mut session, SocketEvent::Frame(frame));
        assert_eq!(error_of(told), "unsupported frame from control plane");
        assert!(matches!(session.advance(SessionEvent::Sent), Some(SessionAction::Read)));
    }
}

#[test]
fn pings_are_echoed() {
    let mut session = greeted();
    assert!(matches!(
        receive(&mut session, SocketEvent::Ping(vec![1, 2])),
        SessionAction::Echo(payload) if payload == [1, 2]
    ));
    session.advance(SessionEvent::Sent);
    let ping = TransportFrame::Ping { id: Some("p-1".into()), sent_at: Some("now".into()) };
    match receive(&mut session, SocketEvent::Frame(ping)) {
        SessionAction::Send(TransportFrame::Pong { id, sent_at }) => {
            assert_eq!(id.as_deref(), Some("p-1"));
            assert_eq!(sent_at.as_deref(), Some("now"));
        }
        other => panic!("{other:?}"),
    }
}

#[test]
fn pongs_and_raw_frames_are_passed_over() {
    let mut session = greeted();
    assert!(matches!(receive(&mut session, SocketEvent::Pong), SessionAction::Read));
    assert!(matches!(receive(&mut session, SocketEvent::RawFrame), SessionAction::Read));
}

#[test]
fn session_ends_with_the_socket() {
    assert!(matches!(
        receive(&mut greeted(), SocketEvent::Close),
        SessionAction::Finish
    ));
    assert!(matches!(
        receive(&mut greeted(), SocketEvent::EndOfStream),
        SessionAction::Finish
    ));
    assert!(matches!(
        receive(&mut greeted(), SocketEvent::InvalidFrame),
        SessionAction::Abort(SessionError::InvalidFrame)
    ));
    assert!(matches!(
        receive(&mut greeted(), SocketEvent::ReadFailed),
        SessionAction::Abort(SessionError::ReadFailed)
    ));
    let mut session = greeted();
    receive(&mut session, SocketEvent::Close);
    assert!(session.advance(SessionEvent::Received(SocketEvent::Pong)).is_none());
}

#[test]
fn each_frame_gets_one_reply() {
    let mut session = greeted();
    let mut sent = 0;
    for n in 0..6 {
        let frame = if n % 2 == 0 {
            command()
        } else {
            SocketEvent::Frame(TransportFrame::Ping { id: None, sent_at: None })
        };
        let mut action = receive(&mut session, frame);
        while !matches!(action, SessionAction::Read) {
            let event = match action {
                SessionAction::Send(_) => {
                    sent += 1;
                    SessionEvent::Sent
                }
                SessionAction::Dispatch(_) => SessionEvent::Dispatched(Err(QueueError::Full)),
                other => panic!("{other:?}"),
            };
            action = session.advance(event).unwrap();
        }
        assert_eq!(sent, n + 1);
    }
}
