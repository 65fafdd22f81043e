use rusty_proxy::buffer::RelayBuffer;
use rusty_proxy::config::Config;
use rusty_proxy::pipeline::{Action, Event, Pipeline, Stage};
use rusty_proxy::registry::BackendRegistry;
use rusty_proxy::relay::pump_stream;
use rusty_proxy::sniff::{Classification, PeekOutcome, PeekResult};

fn pipeline_with_status(status: &[u8]) -> Pipeline {
    let config = Config::with_defaults(80, status.to_vec());
    Pipeline::new(config, BackendRegistry::defaults())
}

/// Walk the machine through the handshake up to the sniff request.
fn run_handshake(p: &mut Pipeline, status: &[u8]) {
    let first = p.step(Event::Started);
    let mut expected = b"HTTP/1.1 101 ".to_vec();
    expected.extend_from_slice(status);
    expected.extend_from_slice(b"\r\n\r\n");
    match first {
        Action::SendLine(line) => assert_eq!(line, expected),
        other => panic!("expected the first disguise line, got {:?}", other),
    }
    assert!(matches!(p.step(Event::LineSent), Action::ReadRequestLine));
    match p.step(Event::RequestLineRead) {
        Action::SendLine(line) => assert_eq!(line, expected),
        other => panic!("expected the second disguise line, got {:?}", other),
    }
    let mut expected_ok = b"HTTP/1.1 200 ".to_vec();
    expected_ok.extend_from_slice(status);
    expected_ok.extend_from_slice(b"\r\n\r\n");
    match p.step(Event::LineSent) {
        Action::SendLine(line) => assert_eq!(line, expected_ok),
        other => panic!("expected the success line, got {:?}", other),
    }
    assert!(matches!(p.step(Event::LineSent), Action::Sniff));
    assert_eq!(p.stage, Stage::Sniffing);
}

#[test]
fn silent_client_routes_to_ssh_and_relays_in_order() {
    // The client connects, receives the disguise lines, sends nothing for
    // the whole sniff window; the machine fails open to the SSH backend and
    // a 10 KB payload then crosses the relay byte-identical and in order.
    let mut p = pipeline_with_status(b"X");
    run_handshake(&mut p, b"X");
    let peek = PeekResult { bytes: Vec::new(), outcome: PeekOutcome::TimedOut };
    match p.step(Event::SniffFinished(peek)) {
        Action::Dial(addr) => assert_eq!(addr.port, 22),
        other => panic!("expected a dial, got {:?}", other),
    }
    assert_eq!(p.classification, Some(Classification::SecureShell));
    assert!(matches!(p.step(Event::DialSucceeded), Action::StartRelay));
    assert_eq!(p.stage, Stage::Relaying);

    let payload: Vec<u8> = (0..10 * 1024).map(|i| (i % 256) as u8).collect();
    let mut buf = RelayBuffer::new(4096, 131072);
    let received = pump_stream(&payload, &mut buf, false);
    assert_eq!(received, payload);

    assert!(matches!(p.step(Event::RelayFinished), Action::CloseConnection));
    assert_eq!(p.stage, Stage::Closed);
}

#[test]
fn immediate_ssh_banner_routes_to_ssh() {
    let mut p = pipeline_with_status(b"@RustyManager");
    run_handshake(&mut p, b"@RustyManager");
    let peek = PeekResult {
        bytes: b"SSH-2.0-libssh_0.9\r\n".to_vec(),
        outcome: PeekOutcome::Completed,
    };
    match p.step(Event::SniffFinished(peek)) {
        Action::Dial(addr) => {
            assert_eq!(addr.port, 22);
        },
        other => panic!("expected a dial, got {:?}", other),
    }
    assert_eq!(p.classification, Some(Classification::SecureShell));
}

#[test]
fn unreachable_tunnel_backend_fails_only_this_connection() {
    // A tunnel-looking client whose backend is down: the machine orders the
    // sockets closed and settles in the failed stage; a fresh pipeline (a
    // new connection) is untouched and proceeds normally.
    let mut p = pipeline_with_status(b"X");
    run_handshake(&mut p, b"X");
    let peek = PeekResult { bytes: b"\x16\x03\x01".to_vec(), outcome: PeekOutcome::Completed };
    match p.step(Event::SniffFinished(peek)) {
        Action::Dial(addr) => assert_eq!(addr.port, 1194),
        other => panic!("expected a dial, got {:?}", other),
    }
    assert_eq!(p.classification, Some(Classification::Tunnel));
    assert!(matches!(p.step(Event::DialFailed), Action::CloseConnection));
    assert_eq!(p.stage, Stage::Failed);
    // The failed stage is terminal and quiet.
    assert!(matches!(p.step(Event::KeepAliveTick), Action::Ignore));
    assert!(matches!(p.step(Event::RelayFinished), Action::Ignore));
    assert_eq!(p.stage, Stage::Failed);

    let mut fresh = pipeline_with_status(b"X");
    assert!(matches!(fresh.step(Event::Started), Action::SendLine(_)));
    assert_eq!(fresh.stage, Stage::SendingFirstLine);
}

#[test]
fn handshake_write_failure_aborts_the_pipeline() {
    let mut p = pipeline_with_status(b"X");
    let _ = p.step(Event::Started);
    assert!(matches!(p.step(Event::WriteFailed), Action::CloseConnection));
    assert_eq!(p.stage, Stage::Failed);
}

#[test]
fn request_line_read_failure_aborts_the_pipeline() {
    let mut p = pipeline_with_status(b"X");
    let _ = p.step(Event::Started);
    let _ = p.step(Event::LineSent);
    assert!(matches!(p.step(Event::ReadFailed), Action::CloseConnection));
    assert_eq!(p.stage, Stage::Failed);
}

#[test]
fn keepalive_ticks_only_while_relaying() {
    let status = b"X".to_vec();
    let mut config = Config::with_defaults(80, status);
    config.keepalive_enabled = true;
    let mut p = Pipeline::new(config, BackendRegistry::defaults());
    // Before the relay: a stray tick does nothing.
    assert!(matches!(p.step(Event::KeepAliveTick), Action::Ignore));
    run_handshake(&mut p, b"X");
    let peek = PeekResult { bytes: Vec::new(), outcome: PeekOutcome::TimedOut };
    let _ = p.step(Event::SniffFinished(peek));
    let _ = p.step(Event::DialSucceeded);
    assert_eq!(p.stage, Stage::Relaying);
    assert!(matches!(p.step(Event::KeepAliveTick), Action::SendKeepAlive));
    // A failed keep-alive write is absorbed, not escalated.
    assert!(matches!(p.step(Event::WriteFailed), Action::Ignore));
    assert_eq!(p.stage, Stage::Relaying);
    // Once the relay ends, the emitter must fall silent.
    let _ = p.step(Event::RelayFinished);
    assert_eq!(p.stage, Stage::Closed);
    assert!(matches!(p.step(Event::KeepAliveTick), Action::Ignore));
}

#[test]
fn keepalive_disabled_never_sends() {
    let mut p = pipeline_with_status(b"X");
    run_handshake(&mut p, b"X");
    let peek = PeekResult { bytes: Vec::new(), outcome: PeekOutcome::TimedOut };
    let _ = p.step(Event::SniffFinished(peek));
    let _ = p.step(Event::DialSucceeded);
    assert!(matches!(p.step(Event::KeepAliveTick), Action::Ignore));
}

#[test]
fn classification_is_set_exactly_once() {
    let mut p = pipeline_with_status(b"X");
    assert_eq!(p.classification, None);
    run_handshake(&mut p, b"X");
    let peek = PeekResult { bytes: b"\x16\x03\x01".to_vec(), outcome: PeekOutcome::Completed };
    let _ = p.step(Event::SniffFinished(peek));
    assert_eq!(p.classification, Some(Classification::Tunnel));
    // A stray second sniff result in the connecting stage is ignored and
    // does not re-classify.
    let peek2 = PeekResult { bytes: b"SSH-".to_vec(), outcome: PeekOutcome::Completed };
    assert!(matches!(p.step(Event::SniffFinished(peek2)), Action::Ignore));
    assert_eq!(p.classification, Some(Classification::Tunnel));
}
