use std::time::Duration;
use tetra::agent::transport::{TransportConfig, TransportEndpoint, TransportError};
use tetra::agent::websocket::{
    delay_with_jitter, dispatch_reply, hostname, reconnect_delay, FrameAction, NextSession,
    Reconnects, SessionError, TransportFrame, WebSocketAgentConfig, MAX_JITTER,
    MAX_RECONNECT_DELAY, PROTOCOL_VERSION,
};
use tetra::agent::{AgentCommand, AgentResponse, QueueError};

#[test]
fn reconnect_delay_is_capped() {
    assert!(
        Duration::from_millis(reconnect_delay(10))
            <= Duration::from_millis(MAX_RECONNECT_DELAY) + Duration::from_secs(1)
    );
}

#[test]
fn rejects_incomplete_or_plaintext_outbound_tls_configuration() {
    let incomplete = TransportConfig {
        control_plane_url: "wss://dashboard.example.test/tetra".into(),
        ..Default::default()
    };
    (incomplete.validate(&incomplete.control_plane_url)).unwrap_err();

    let plaintext = TransportConfig {
        control_plane_url: "ws://127.0.0.1:7780".into(),
        client_cert_path: Some("client.crt".into()),
        client_key_path: Some("client.key".into()),
        server_ca_path: Some("ca.crt".into()),
    };
    (plaintext.validate(&plaintext.control_plane_url)).unwrap_err();
}

fn complete(url: &str) -> TransportConfig {
    TransportConfig {
        control_plane_url: url.into(),
        client_cert_path: Some("client.crt".into()),
        client_key_path: Some("client.key".into()),
        server_ca_path: Some("ca.crt".into()),
    }
}

#[test]
fn accepts_complete_secure_configuration() {
    let config = complete("wss://dashboard.example.com/tetra/agent");
    assert!(config.validate(&config.control_plane_url).is_ok());
    assert_eq!(
        config.outbound_url().unwrap(),
        "wss://dashboard.example.com/tetra/agent"
    );
    let paths = config.tls_paths().unwrap();
    assert_eq!(paths.server_ca, "ca.crt");
    assert_eq!(paths.client_cert, "client.crt");
    assert_eq!(paths.client_key, "client.key");
}

#[test]
fn reports_each_missing_file() {
    let mut config = complete("wss://a");
    config.client_key_path = None;
    assert_eq!(config.validate("wss://a"), Err(TransportError::MissingClientKey));
    assert_eq!(config.tls_paths().unwrap_err(), TransportError::MissingClientKey);
    config.client_cert_path = None;
    assert_eq!(config.validate("wss://a"), Err(TransportError::MissingClientCertificate));
    assert_eq!(config.tls_paths().unwrap_err(), TransportError::MissingClientCertificate);
    config.server_ca_path = None;
    assert_eq!(config.validate("wss://a"), Err(TransportError::MissingServerCa));
    assert_eq!(config.tls_paths().unwrap_err(), TransportError::MissingServerCa);
    assert_eq!(config.validate("ws://a"), Err(TransportError::Plaintext));
}

#[test]
fn outbound_url_knows_its_schemes() {
    assert_eq!(complete("ws://a").outbound_url(), Err(TransportError::Plaintext));
    assert_eq!(complete("vsock://3:2048").outbound_url(), Err(TransportError::NotWebSocket));
    assert_eq!(complete("https://a").outbound_url(), Err(TransportError::UnknownScheme));
    assert_eq!(complete("").outbound_url(), Err(TransportError::UnknownScheme));
    match complete("vsock://3:2048").endpoint().unwrap() {
        TransportEndpoint::Vsock(address) => assert_eq!(address, "3:2048"),
        other => panic!("{other:?}"),
    }
    match complete("ws://a").endpoint().unwrap() {
        TransportEndpoint::WebSocket { url } => assert_eq!(url, "ws://a"),
        other => panic!("{other:?}"),
    }
}

#[test]
fn transport_errors_have_messages() {
    assert_eq!(
        TransportError::NotWebSocket.message(),
        "agent-connect only supports ws:// and wss:// endpoints"
    );
    assert_eq!(
        TransportError::MissingServerCa.message(),
        "missing server CA path for outbound WSS"
    );
    assert_eq!(
        TransportError::MissingClientCertificate.message(),
        "missing client certificate path for outbound WSS"
    );
    assert_eq!(
        TransportError::MissingClientKey.message(),
        "missing client key path for outbound WSS"
    );
    assert_eq!(
        TransportError::Plaintext.message(),
        "outbound control plane URL must use wss://"
    );
    assert_eq!(
        TransportError::UnknownScheme.message(),
        "control plane URL must use ws://, wss:// or vsock://"
    );
}

#[test]
fn hello_names_the_host_and_the_protocol() {
    let config = WebSocketAgentConfig {
        transport: complete("wss://a"),
        host_id: "myhost".into(),
        reconnect: true,
    };
    match TransportFrame::hello(&config.host_id, "1.2.3", Some("box".into()), "linux", "x86_64") {
        TransportFrame::Hello { host_id, agent_version, protocol_version, hostname, os, arch } => {
            assert_eq!(host_id, "myhost");
            assert_eq!(agent_version, "1.2.3");
            assert_eq!(protocol_version, "2026-06-29");
            assert_eq!(protocol_version, PROTOCOL_VERSION);
            assert_eq!(hostname.as_deref(), Some("box"));
            assert_eq!(os, "linux");
            assert_eq!(arch, "x86_64");
        }
        other => panic!("{other:?}"),
    }
}

fn error_of(frame: TransportFrame) -> String {
    match frame {
        TransportFrame::Error { error } => error,
        other => panic!("{other:?}"),
    }
}

#[test]
fn command_is_dispatched() {
    let frame = TransportFrame::Command {
        command: AgentCommand {
            id: "cmd-1".into(),
            module: "settings".into(),
            action: "get_system".into(),
            ..Default::default()
        },
    };
    match frame.handle() {
        FrameAction::Dispatch(command) => {
            assert_eq!(command.id, "cmd-1");
            assert_eq!(command.module, "settings");
            assert_eq!(command.action, "get_system");
            assert!(command.payload.is_null());
        }
        other => panic!("{other:?}"),
    }
}

#[test]
fn ping_is_answered_with_the_same_pong() {
    let frame = TransportFrame::Ping { id: Some("p-1".into()), sent_at: None };
    match frame.handle() {
        FrameAction::Reply(TransportFrame::Pong { id, sent_at }) => {
            assert_eq!(id.as_deref(), Some("p-1"));
            assert_eq!(sent_at, None);
        }
        other => panic!("{other:?}"),
    }
}

#[test]
fn other_frames_are_rejected() {
    let frames = vec![
        TransportFrame::hello("h", "v", None, "o", "a"),
        TransportFrame::Response { response: AgentResponse::default() },
        TransportFrame::Pong { id: None, sent_at: None },
        TransportFrame::Error { error: "x".into() },
    ];
    for frame in frames {
        match frame.handle() {
            FrameAction::Reply(reply) => {
                assert_eq!(error_of(reply), "unsupported frame from control plane");
            }
            other => panic!("{other:?}"),
        }
    }
}

#[test]
fn dispatch_outcomes_are_told() {
    let reply = dispatch_reply(Ok(AgentResponse { body: serde_json::Value::from("done") }));
    assert_eq!(reply.end, None);
    match reply.frame {
        TransportFrame::Response { response } => {
            assert_eq!(response.body, serde_json::Value::from("done"));
        }
        other => panic!("{other:?}"),
    }

    let reply = dispatch_reply(Err(QueueError::Full));
    assert_eq!(reply.end, None);
    assert_eq!(
        error_of(reply.frame),
        "Tetra command queue is full; retry after backoff"
    );

    let reply = dispatch_reply(Err(QueueError::Closed));
    assert_eq!(reply.end, Some(SessionError::QueueClosed));
    assert_eq!(error_of(reply.frame), "Tetra command queue is unavailable");
}

#[test]
fn session_errors_have_messages() {
    assert_eq!(SessionError::InvalidFrame.message(), "invalid websocket frame JSON");
    assert_eq!(SessionError::ReadFailed.message(), "failed to read websocket message");
    assert_eq!(SessionError::QueueClosed.message(), "dispatch queue closed");
}

#[test]
fn shown_hostname_prefers_the_first_variable() {
    let some = |value: &str| Some(value.to_string());
    assert_eq!(hostname(some("a"), some("b")), some("a"));
    assert_eq!(hostname(None, some("b")), some("b"));
    assert_eq!(hostname(some("  \t"), some("b")), None);
    assert_eq!(hostname(some(" a "), None), some(" a "));
    assert_eq!(hostname(None, some("")), None);
    assert_eq!(hostname(None, None), None);
}

#[test]
fn backoff_doubles_up_to_a_minute() {
    let expected = [1_000, 2_000, 4_000, 8_000, 16_000, 32_000, 60_000, 60_000, 60_000];
    for (attempt, delay) in expected.iter().enumerate() {
        assert_eq!(delay_with_jitter(attempt as u32, 0), *delay);
        assert_eq!(delay_with_jitter(attempt as u32, 1_000), *delay + 1_000);
    }
    assert_eq!(delay_with_jitter(u32::MAX, 7), 60_007);
    assert_eq!(delay_with_jitter(0, u64::MAX), u64::MAX);
}

#[test]
fn jitter_stays_within_its_bounds_and_varies() {
    let delays: Vec<u64> = (0..200).map(|_| reconnect_delay(3)).collect();
    assert!(delays.iter().all(|delay| (8_000..=8_000 + MAX_JITTER).contains(delay)));
    assert!(delays.iter().any(|delay| *delay != delays[0]));
}

#[test]
fn clean_session_resets_the_backoff() {
    let mut reconnects = Reconnects::new(true);
    assert_eq!(reconnects.session_ended(true), NextSession::Retry);
    assert_eq!(reconnects.session_ended(true), NextSession::Retry);
    assert_eq!(reconnects.session_ended(true), NextSession::Retry);
    assert!((8_000..=9_000).contains(&reconnects.delay()));
    assert_eq!(reconnects.session_ended(false), NextSession::Retry);
    assert!((1_000..=2_000).contains(&reconnects.delay()));
}

#[test]
fn without_reconnect_the_first_session_is_the_last() {
    let mut reconnects = Reconnects::new(false);
    assert_eq!(reconnects.session_ended(false), NextSession::Stop);
    assert_eq!(reconnects.session_ended(true), NextSession::Stop);
}
