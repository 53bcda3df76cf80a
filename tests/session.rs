use influencer::message::{Frame, Request, ServerMessage};
use influencer::session::{AuthStep, Filter, Readyness, Session};

fn text(s: &str) -> Frame {
    Frame::Text(s.to_string())
}

const HELLO: &str = r#"{"op":0,"d":{"obsWebSocketVersion":"5.1.0","rpcVersion":1}}"#;
const IDENTIFIED: &str = r#"{"op":2,"d":{"negotiatedRpcVersion":1}}"#;
const EVENT: &str = r#"{"op":5,"d":{"eventType":"CurrentProgramSceneChanged","eventIntent":4,"eventData":{"sceneName":"A"}}}"#;
const RESPONSE: &str = r#"{"op":7,"d":{"requestType":"GetVersion","requestId":"r1","requestStatus":{"result":true,"code":100},"responseData":{"obsVersion":"30.0.0"}}}"#;

fn ready_session() -> (Session, usize) {
    let mut s = Session::new();
    let c = s.subscribe();
    assert!(matches!(s.step_auth(c, None, Some(0)), AuthStep::Read));
    s.receive(text(HELLO));
    assert!(matches!(s.step_auth(c, None, Some(0)), AuthStep::Done(Readyness::GotHello)));
    match s.step_auth(c, None, Some(0)) {
        AuthStep::Write(t) => {
            assert_eq!(t, r#"{"op":1,"d":{"rpcVersion":1,"eventSubscriptions":0}}"#)
        }
        other => panic!("unexpected {:?}", other),
    }
    s.identify_written();
    assert_eq!(s.readyness(), Readyness::SentIdentify);
    assert!(matches!(s.step_auth(c, None, Some(0)), AuthStep::Flush));
    s.flushed();
    assert!(matches!(s.step_auth(c, None, Some(0)), AuthStep::Read));
    s.receive(text(IDENTIFIED));
    assert!(matches!(s.step_auth(c, None, Some(0)), AuthStep::Done(Readyness::Ready)));
    (s, c)
}

#[test]
fn scenario_handshake_without_challenge() {
    let (mut s, c) = ready_session();
    assert_eq!(s.readyness(), Readyness::Ready);
    assert!(matches!(s.step_auth(c, None, Some(0)), AuthStep::Done(Readyness::Ready)));
    assert!(!s.needs_flush());
}

#[test]
fn handshake_with_challenge_through_session() {
    let mut s = Session::new();
    let c = s.subscribe();
    s.receive(text(r#"{"op":5,"d":{"eventType":"X","eventIntent":1}}"#));
    s.receive(text(r#"{"op":0,"d":{"authentication":{"challenge":"c","salt":"s"}}}"#));
    assert!(matches!(s.step_auth(c, Some("p@ss"), None), AuthStep::Done(Readyness::GotHello)));
    match s.step_auth(c, Some("p@ss"), None) {
        AuthStep::Write(t) => assert_eq!(
            t,
            r#"{"op":1,"d":{"rpcVersion":1,"authentication":"s3jpPi/uQYwSM6/0EY5jUC6MaTQSmeV8CeU3W3NaTw4="}}"#
        ),
        other => panic!("unexpected {:?}", other),
    }
}

#[test]
fn scenario_response_correlation_keeps_events_for_other_cursors() {
    let (mut s, c) = ready_session();
    s.unsubscribe(c);
    let responses = s.subscribe();
    let events = s.subscribe();
    let req = Request {
        request_type: "GetVersion".to_string(),
        request_id: "r1".to_string(),
        request_data: None,
    };
    assert_eq!(
        req.into_ws_message_json(),
        r#"{"op":6,"d":{"requestType":"GetVersion","requestId":"r1"}}"#
    );
    s.written();
    assert!(s.needs_flush());
    s.flushed();
    assert!(!s.needs_flush());
    s.receive(text(EVENT));
    s.receive(text(RESPONSE));
    let want = Filter::Response("r1".to_string());
    assert!(s.next_matching(responses, &want));
    let (info, data) = s.get_buffered_response(responses).unwrap();
    assert_eq!(info.request_id, "r1");
    assert_eq!(info.request_type, "GetVersion");
    assert_eq!(data.as_deref(), Some(r#"{"obsVersion":"30.0.0"}"#));
    assert!(s.next_matching(events, &Filter::Event));
    match s.get_buffered_valid_message(events) {
        Some(ServerMessage::Event(e)) => assert_eq!(e.event_type, "CurrentProgramSceneChanged"),
        other => panic!("unexpected {:?}", other),
    }
}

#[test]
fn next_matching_stops_at_match_and_is_idempotent() {
    let mut s = Session::new();
    let c = s.subscribe();
    s.receive(Frame::Other);
    s.receive(text("garbage"));
    s.receive(text(EVENT));
    s.receive(text(RESPONSE));
    assert!(s.next_matching(c, &Filter::AnyValid));
    assert!(matches!(s.get_buffered_valid_message(c), Some(ServerMessage::Event(_))));
    assert!(s.next_matching(c, &Filter::AnyValid));
    assert!(matches!(s.get_buffered_valid_message(c), Some(ServerMessage::Event(_))));
    let want = Filter::Response("r1".to_string());
    assert!(s.next_matching(c, &want));
    assert!(s.next_matching(c, &want));
    assert_eq!(s.get_buffered_text_message(c).map(|t| t.as_str()), Some(RESPONSE));
}

#[test]
fn next_matching_runs_out_without_match() {
    let mut s = Session::new();
    let c = s.subscribe();
    s.receive(text(EVENT));
    s.receive(text(RESPONSE));
    assert!(!s.next_matching(c, &Filter::Response("other".to_string())));
    assert!(s.get_buffered_message_raw(c).is_none());
    assert!(!s.ack_message(c));
    s.receive(text(r#"{"op":9,"d":{"requestId":"other","results":[]}}"#));
    assert!(!s.next_matching(c, &Filter::Response("other".to_string())));
    s.receive(text(r#"{"op":9,"d":{"requestId":"other","results":[]}}"#));
    assert!(s.next_matching(c, &Filter::ResponseBatch("other".to_string())));
}

#[test]
fn request_ids_are_fixed_width_hex() {
    let mut s = Session::new();
    assert_eq!(s.generate_id(), "0000000000000000");
    assert_eq!(s.generate_id(), "0000000000000001");
    for _ in 2..255 {
        s.generate_id();
    }
    assert_eq!(s.generate_id(), "00000000000000ff");
    assert_eq!(s.generate_id(), "0000000000000100");
}

#[test]
fn frame_filters() {
    assert!(Session::frame_passes(&text(HELLO), &Filter::Hello));
    assert!(!Session::frame_passes(&text(HELLO), &Filter::Identified));
    assert!(Session::frame_passes(&text(IDENTIFIED), &Filter::Identified));
    assert!(!Session::frame_passes(&Frame::Other, &Filter::AnyValid));
    assert!(!Session::frame_passes(&text(RESPONSE), &Filter::Response("r2".to_string())));
    assert!(!Session::frame_passes(&text(RESPONSE), &Filter::ResponseBatch("r1".to_string())));
}

#[test]
fn counters_are_visible() {
    let mut s = Session::new();
    assert_eq!(s.next_cursor_id(), 0);
    assert_eq!(s.next_request_number(), 0);
    let c = s.subscribe();
    assert_eq!(c, 0);
    assert_eq!(s.next_cursor_id(), 1);
    s.generate_id();
    assert_eq!(s.next_request_number(), 1);
    s.unsubscribe(c);
    assert_eq!(s.next_cursor_id(), 1);
}
