use ytune::handshake::{check_handshake_reply, ConnectAction, ConnectEvent, ConnectPhase, ConnectSession, HandshakeError, CONNECT_ATTEMPT_BOUND};
use ytune::payload::handshake_payload;
use ytune::supervisor::ConnectionSlot;

#[test]
fn handshake_payload_exact() {
    let p = handshake_payload("1356377176563384371");
    assert_eq!(p, b"{\"v\":1,\"client_id\":\"1356377176563384371\"}".to_vec());
}

#[test]
fn handshake_payload_escapes_identifier() {
    let p = handshake_payload("a\"b");
    assert_eq!(p, b"{\"v\":1,\"client_id\":\"a\\\"b\"}".to_vec());
}

#[test]
fn ready_dispatch_is_accepted() {
    let r = check_handshake_reply(1, "{\"cmd\":\"DISPATCH\",\"evt\":\"READY\"}");
    assert!(r.is_ok());
}

#[test]
fn wrong_opcode_is_rejected() {
    let r = check_handshake_reply(0, "{\"cmd\":\"DISPATCH\",\"evt\":\"READY\"}");
    assert_eq!(r.unwrap_err(), HandshakeError::UnexpectedOpcode);
    let r2 = check_handshake_reply(5, "{\"cmd\":\"DISPATCH\",\"evt\":\"READY\"}");
    assert_eq!(r2.unwrap_err(), HandshakeError::UnexpectedOpcode);
}

#[test]
fn unparseable_reply_is_malformed() {
    let r = check_handshake_reply(1, "not json at all");
    assert_eq!(r.unwrap_err(), HandshakeError::MalformedHandshakeResponse);
}

#[test]
fn wrong_event_is_rejected() {
    let r = check_handshake_reply(1, "{\"cmd\":\"DISPATCH\",\"evt\":\"ERROR\"}");
    assert_eq!(r.unwrap_err(), HandshakeError::HandshakeRejected);
}

#[test]
fn missing_fields_are_rejected() {
    let r = check_handshake_reply(1, "{}");
    assert_eq!(r.unwrap_err(), HandshakeError::HandshakeRejected);
    let r2 = check_handshake_reply(1, "[1,2,3]");
    assert_eq!(r2.unwrap_err(), HandshakeError::HandshakeRejected);
}

#[test]
fn ten_failed_opens_end_in_connect_failed() {
    let mut s = ConnectSession::new("client").unwrap();
    for i in 1..=CONNECT_ATTEMPT_BOUND {
        match s.phase {
            ConnectPhase::Opening { attempt } => assert_eq!(attempt, i),
            _ => panic!("expected an opening phase"),
        }
        let a = s.step(ConnectEvent::OpenFailed);
        if i < CONNECT_ATTEMPT_BOUND {
            assert!(matches!(a, ConnectAction::RetryAfterDelay));
        } else {
            assert!(matches!(a, ConnectAction::Done));
        }
    }
    assert!(matches!(s.phase, ConnectPhase::Failed { error: HandshakeError::ConnectFailed }));
    let a = s.step(ConnectEvent::OpenFailed);
    assert!(matches!(a, ConnectAction::Done));
    assert!(matches!(s.phase, ConnectPhase::Failed { error: HandshakeError::ConnectFailed }));
}

#[test]
fn successful_open_sends_the_handshake_frame() {
    let mut s = ConnectSession::new("client").unwrap();
    let a = s.step(ConnectEvent::Opened);
    match a {
        ConnectAction::SendHandshake(f) => {
            let payload = handshake_payload("client");
            assert_eq!(&f[0..4], &[0, 0, 0, 0]);
            assert_eq!(&f[4..8], &(payload.len() as u32).to_le_bytes()[..]);
            assert_eq!(&f[8..], payload.as_slice());
        },
        _ => panic!("expected the handshake frame"),
    }
    assert!(matches!(s.phase, ConnectPhase::AwaitingReply));
}

#[test]
fn error_dispatch_fails_handshake_and_slot_stays_empty() {
    let mut slot = ConnectionSlot::new();
    let mut s = ConnectSession::new("client").unwrap();
    s.step(ConnectEvent::Opened);
    let a = s.step(ConnectEvent::Reply {
        opcode: 1,
        payload: String::from("{\"cmd\":\"DISPATCH\",\"evt\":\"ERROR\"}"),
    });
    assert!(matches!(a, ConnectAction::Done));
    assert!(matches!(s.phase, ConnectPhase::Failed { error: HandshakeError::HandshakeRejected }));
    slot.connect_attempt_failed();
    assert!(slot.acquire().is_none());
}

#[test]
fn ready_reply_makes_session_ready() {
    let mut s = ConnectSession::new("client").unwrap();
    s.step(ConnectEvent::Opened);
    s.step(ConnectEvent::Reply {
        opcode: 1,
        payload: String::from("{\"cmd\":\"DISPATCH\",\"evt\":\"READY\",\"data\":{}}"),
    });
    assert!(matches!(s.phase, ConnectPhase::Ready));
}
