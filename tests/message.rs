use influencer::message::{
    event, request_batch::RequestsItem, response, response_batch, DecodeError, Event, Frame,
    Hello, Identified, Identify, MessageDataFull, Raw, Reidentify, Request, RequestBatch, Response,
    ResponseBatch, ServerMessage,
};

fn text(s: &str) -> Frame {
    Frame::Text(s.to_string())
}

#[test]
fn reads_hello_with_challenge() {
    let m = ServerMessage::from_json_str(
        r#"{"op":0,"d":{"rpcVersion":1,"authentication":{"challenge":"ch","salt":"sa"}}}"#,
    )
    .unwrap();
    assert_eq!(m.opcode(), 0);
    match m {
        ServerMessage::Hello(Hello { authentication: Some(a) }) => {
            assert_eq!(a.challenge, "ch");
            assert_eq!(a.salt, "sa");
        }
        other => panic!("unexpected {:?}", other),
    }
}

#[test]
fn reads_hello_without_or_with_null_challenge() {
    for t in [r#"{"op":0,"d":{}}"#, r#"{"d":{"authentication":null},"op":0}"#] {
        match ServerMessage::from_json_str(t).unwrap() {
            ServerMessage::Hello(Hello { authentication: None }) => {}
            other => panic!("unexpected {:?}", other),
        }
    }
}

#[test]
fn reads_identified_event_and_responses() {
    match ServerMessage::from_json_str(r#"{"op":2,"d":{"negotiatedRpcVersion":1}}"#).unwrap() {
        ServerMessage::Identified(i) => assert_eq!(i.negotiated_rpc_version, 1),
        other => panic!("unexpected {:?}", other),
    }
    let m = ServerMessage::from_json_str(
        r#"{"op":5,"d":{"eventType":"SceneChanged","eventIntent":4,"eventData":{"x":1}}}"#,
    )
    .unwrap();
    assert_eq!(m.opcode(), 5);
    match m {
        ServerMessage::Event(e) => {
            assert_eq!(e.event_type, "SceneChanged");
            assert_eq!(e.event_intent, 4);
        }
        other => panic!("unexpected {:?}", other),
    }
    let m = ServerMessage::from_json_str(
        r#"{"op":7,"d":{"requestType":"GetVersion","requestId":"r1","requestStatus":{"result":false,"code":600,"comment":"nope"}}}"#,
    )
    .unwrap();
    assert_eq!(m.opcode(), 7);
    match m {
        ServerMessage::Response(r) => {
            assert_eq!(r.request_type, "GetVersion");
            assert_eq!(r.request_id, "r1");
            assert!(!r.request_status.result);
            assert_eq!(r.request_status.code, 600);
            assert_eq!(r.request_status.comment.as_deref(), Some("nope"));
        }
        other => panic!("unexpected {:?}", other),
    }
    let m = ServerMessage::from_json_str(r#"{"op":9,"d":{"requestId":"b1","results":[]}}"#).unwrap();
    assert_eq!(m.opcode(), 9);
    match m {
        ServerMessage::ResponseBatch(b) => assert_eq!(b.request_id, "b1"),
        other => panic!("unexpected {:?}", other),
    }
}

#[test]
fn rejects_malformed_messages() {
    for t in [
        "",
        "[1,2]",
        r#"{"op":4,"d":{}}"#,
        r#"{"op":0}"#,
        r#"{"d":{}}"#,
        r#"{"op":"0","d":{}}"#,
        r#"{"op":1.5,"d":{}}"#,
        r#"{"op":0,"d":5}"#,
        r#"{"op":2,"d":{"negotiatedRpcVersion":-1}}"#,
        r#"{"op":2,"d":{"negotiatedRpcVersion":4294967296}}"#,
        r#"{"op":5,"d":{"eventType":"X"}}"#,
        r#"{"op":7,"d":{"requestType":"A","requestId":"r","requestStatus":{"result":true}}}"#,
        r#"{"op":0,"d":{"authentication":{"challenge":"c"}}}"#,
    ] {
        assert_eq!(
            ServerMessage::from_json_str(t).unwrap_err(),
            DecodeError::Json,
            "{}",
            t
        );
    }
}

#[test]
fn reads_frames() {
    assert_eq!(
        ServerMessage::from_frame(&Frame::Other).unwrap_err(),
        DecodeError::NotText
    );
    assert!(ServerMessage::from_frame(&text(r#"{"op":0,"d":{}}"#)).is_ok());
}

#[test]
fn typed_reads_tell_mismatch_from_malformed() {
    assert_eq!(
        Hello::from_ws_message_json(&text(r#"{"op":2,"d":{"negotiatedRpcVersion":1}}"#))
            .unwrap_err(),
        DecodeError::OpCodeMismatch(2)
    );
    assert_eq!(
        Identified::from_ws_message_json(&text(r#"{"op":0,"d":{}}"#)).unwrap_err(),
        DecodeError::Json
    );
    assert_eq!(
        Identified::from_ws_message_json(&Frame::Other).unwrap_err(),
        DecodeError::NotText
    );
    assert_eq!(
        Identified::from_ws_message_json(&text(r#"{"op":2,"d":{"negotiatedRpcVersion":7}}"#))
            .unwrap()
            .negotiated_rpc_version,
        7
    );
}

#[test]
fn writes_identify() {
    let m = Identify {
        rpc_version: 1,
        authentication: Some("a\"b".to_string()),
        event_subscriptions: Some(1023),
    };
    assert_eq!(
        m.into_ws_message_json(),
        r#"{"op":1,"d":{"rpcVersion":1,"authentication":"a\"b","eventSubscriptions":1023}}"#
    );
}

#[test]
fn writes_reidentify() {
    let m = Reidentify { event_subscriptions: Some(7) };
    assert_eq!(m.into_ws_message_json(), r#"{"op":3,"d":{"eventSubscriptions":7}}"#);
    let m = Reidentify { event_subscriptions: None };
    assert_eq!(m.into_ws_message_json(), r#"{"op":3,"d":{}}"#);
}

#[test]
fn writes_request() {
    let m = Request {
        request_type: "GetVersion".to_string(),
        request_id: "r1".to_string(),
        request_data: None,
    };
    assert_eq!(
        m.into_ws_message_json(),
        r#"{"op":6,"d":{"requestType":"GetVersion","requestId":"r1"}}"#
    );
    let m = Request {
        request_type: "SetScene".to_string(),
        request_id: "r2".to_string(),
        request_data: Some(r#"{"sceneName":"Main"}"#.to_string()),
    };
    assert_eq!(
        m.into_ws_message_json(),
        r#"{"op":6,"d":{"requestType":"SetScene","requestId":"r2","requestData":{"sceneName":"Main"}}}"#
    );
}

#[test]
fn writes_request_batch() {
    let m = RequestBatch {
        request_id: "b1".to_string(),
        halt_on_failure: Some(true),
        execution_type: Some(-1),
        requests: vec![
            RequestsItem {
                request_type: "GetVersion".to_string(),
                request_id: None,
                request_data: None,
            },
            RequestsItem {
                request_type: "Sleep".to_string(),
                request_id: Some("s".to_string()),
                request_data: Some(r#"{"sleepMillis":10}"#.to_string()),
            },
        ],
    };
    assert_eq!(
        m.into_ws_message_json(),
        r#"{"op":8,"d":{"requestId":"b1","haltOnFailure":true,"executionType":-1,"requests":[{"requestType":"GetVersion"},{"requestType":"Sleep","requestId":"s","requestData":{"sleepMillis":10}}]}}"#
    );
    let empty: RequestBatch<Vec<RequestsItem<String>>> = RequestBatch {
        request_id: "b2".to_string(),
        halt_on_failure: None,
        execution_type: None,
        requests: vec![],
    };
    assert_eq!(
        empty.into_ws_message_json(),
        r#"{"op":8,"d":{"requestId":"b2","requests":[]}}"#
    );
}

#[test]
fn writes_raw_envelope() {
    let raw = Raw { op: -2147483648, d: "{}".to_string() };
    assert_eq!(raw.to_ws_message_json(), r#"{"op":-2147483648,"d":{}}"#);
    let raw = Raw { op: 42, d: "null".to_string() };
    assert_eq!(raw.to_ws_message_json(), r#"{"op":42,"d":null}"#);
}

#[test]
fn into_raw_message_keeps_opcode() {
    let raw = Reidentify { event_subscriptions: None }.into_raw_message();
    assert_eq!(raw.op, 3);
    let raw = Request::<String> {
        request_type: "A".to_string(),
        request_id: "b".to_string(),
        request_data: None,
    }
    .into_raw_message();
    assert_eq!(raw.op, 6);
}

#[test]
fn reads_data_parts() {
    let t = r#"{"op":7,"d":{"requestType":"GetVersion","requestId":"r1","requestStatus":{"result":true,"code":100},"responseData":{"v":"5"}}}"#;
    let data = response::DataPart::<String>::from_json_str(t).unwrap();
    assert_eq!(data.response_data.as_deref(), Some(r#"{"v":"5"}"#));
    let t = r#"{"op":7,"d":{"requestType":"A","requestId":"r","requestStatus":{"result":true,"code":100},"responseData":null}}"#;
    assert_eq!(
        response::DataPart::<String>::from_json_str(t).unwrap().response_data,
        None
    );
    assert!(response::DataPart::<String>::from_json_str(r#"{"op":5,"d":{}}"#).is_none());
    let t = r#"{"op":5,"d":{"eventType":"X","eventIntent":1,"eventData":[1,2]}}"#;
    assert_eq!(
        event::DataPart::<String>::from_json_str(t).unwrap().event_data.as_deref(),
        Some("[1,2]")
    );
    let t = r#"{"op":9,"d":{"requestId":"b","results":[{"requestType":"A"}]}}"#;
    assert_eq!(
        response_batch::ResultsPart::<String>::from_json_str(t).unwrap().results,
        r#"[{"requestType":"A"}]"#
    );
    assert!(response_batch::ResultsPart::<String>::from_json_str(r#"{"op":9,"d":{"requestId":"b"}}"#).is_none());
}

#[test]
fn puts_messages_together_from_parts() {
    let e = Event::from_info_w_data(
        event::InfoPart { event_type: "X".to_string(), event_intent: 3 },
        Some(5u8),
    );
    assert_eq!(e.event_type, "X");
    assert_eq!(e.event_intent, 3);
    assert_eq!(e.event_data, Some(5));
    let info = response::InfoPart {
        request_type: "A".to_string(),
        request_id: "r".to_string(),
        request_status: response::RequestStatus { result: true, code: 100, comment: None },
    };
    let r = Response::from_info_w_data(info, Some("d"));
    assert_eq!(r.request_id, "r");
    assert_eq!(r.request_status.code, 100);
    assert_eq!(r.response_data, Some("d"));
    let b = ResponseBatch::from_parts(
        response_batch::InfoPart { request_id: "b".to_string() },
        response_batch::ResultsPart { results: vec![1, 2] },
    );
    assert_eq!(b.request_id, "b");
    assert_eq!(b.results, vec![1, 2]);
}
