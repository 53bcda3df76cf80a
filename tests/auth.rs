use influencer::auth::{auth_response, identify_frame, AuthIo, Handshake, State};
use influencer::message::{hello::Authentication, DecodeError, Frame};

fn text(s: &str) -> Frame {
    Frame::Text(s.to_string())
}

#[test]
fn digest_matches_reference_vector() {
    assert_eq!(
        auth_response("p@ss", "s", "c"),
        "s3jpPi/uQYwSM6/0EY5jUC6MaTQSmeV8CeU3W3NaTw4="
    );
    assert_eq!(
        auth_response("p@ss", "s", "c"),
        auth_response("p@ss", "s", "c")
    );
}

#[test]
fn digest_with_empty_password() {
    assert_eq!(
        auth_response("", "salt", "chal"),
        "2yS/+47+7EZxHuYOKeT/ZwzP1O7XHjLLDHyCorVvyrc="
    );
}

#[test]
fn identify_without_challenge_has_no_authentication() {
    let t = identify_frame(Some("secret"), &None, Some(0));
    assert_eq!(t, r#"{"op":1,"d":{"rpcVersion":1,"eventSubscriptions":0}}"#);
    assert!(!t.contains("authentication"));
    let t = identify_frame(None, &None, None);
    assert_eq!(t, r#"{"op":1,"d":{"rpcVersion":1}}"#);
}

#[test]
fn identify_with_challenge_answers_it() {
    let challenge = Some(Authentication {
        challenge: "c".to_string(),
        salt: "s".to_string(),
    });
    let t = identify_frame(Some("p@ss"), &challenge, None);
    assert_eq!(
        t,
        r#"{"op":1,"d":{"rpcVersion":1,"authentication":"s3jpPi/uQYwSM6/0EY5jUC6MaTQSmeV8CeU3W3NaTw4="}}"#
    );
}

#[test]
fn handshake_without_challenge_reaches_ready() {
    let mut h = Handshake::new(None, Some(33));
    assert!(matches!(h.next_io(), Some(AuthIo::Read)));
    h.on_read(&text(r#"{"op":0,"d":{"obsWebSocketVersion":"5.0.0","rpcVersion":1}}"#))
        .unwrap();
    assert!(matches!(h.state(), State::GotHello(None)));
    match h.next_io() {
        Some(AuthIo::Write(t)) => {
            assert_eq!(t, r#"{"op":1,"d":{"rpcVersion":1,"eventSubscriptions":33}}"#)
        }
        other => panic!("unexpected {:?}", other),
    }
    h.on_written();
    assert!(matches!(h.next_io(), Some(AuthIo::Flush)));
    h.on_flushed();
    assert!(matches!(h.next_io(), Some(AuthIo::Read)));
    assert_eq!(h.rpc_version(), None);
    h.on_read(&text(r#"{"op":2,"d":{"negotiatedRpcVersion":1}}"#))
        .unwrap();
    assert_eq!(h.rpc_version(), Some(1));
    assert!(h.next_io().is_none());
}

#[test]
fn handshake_with_challenge_writes_authentication() {
    let mut h = Handshake::new(Some("p@ss".to_string()), None);
    h.on_read(&text(
        r#"{"op":0,"d":{"authentication":{"challenge":"c","salt":"s"}}}"#,
    ))
    .unwrap();
    match h.next_io() {
        Some(AuthIo::Write(t)) => assert!(t.contains(
            r#""authentication":"s3jpPi/uQYwSM6/0EY5jUC6MaTQSmeV8CeU3W3NaTw4=""#
        )),
        other => panic!("unexpected {:?}", other),
    }
}

#[test]
fn handshake_rejects_wrong_opcode() {
    let mut h = Handshake::new(None, None);
    let r = h.on_read(&text(r#"{"op":2,"d":{"negotiatedRpcVersion":1}}"#));
    assert_eq!(r, Err(DecodeError::OpCodeMismatch(2)));
    assert!(matches!(h.state(), State::Connected));
}

#[test]
fn handshake_rejects_non_text_and_malformed() {
    let mut h = Handshake::new(None, None);
    assert_eq!(h.on_read(&Frame::Other), Err(DecodeError::NotText));
    assert_eq!(h.on_read(&text("not json")), Err(DecodeError::Json));
    assert_eq!(h.on_read(&text(r#"{"op":0}"#)), Err(DecodeError::Json));
    assert!(matches!(h.state(), State::Connected));
}

#[test]
fn handshake_rejects_malformed_identified() {
    let mut h = Handshake::new(None, None);
    h.on_read(&text(r#"{"op":0,"d":{}}"#)).unwrap();
    h.on_written();
    h.on_flushed();
    assert_eq!(
        h.on_read(&text(r#"{"op":2,"d":{"negotiatedRpcVersion":"one"}}"#)),
        Err(DecodeError::Json)
    );
    assert!(matches!(h.state(), State::SentIdentify));
}
