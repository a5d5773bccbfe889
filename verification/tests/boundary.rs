use wsgidragoncall::call_loop::{CallError, CallRecv, CallResponse};
use wsgidragoncall::host::{
    build_exc, copy_bytes, copy_pairs, error_tag_text, exception_for, get, log_tags, CauseKind,
    ExcKind, HttpResponse, TagValue,
};
use wsgidragoncall::recovery::{
    after_exit, fault_record, frame_line, log_line, supervise, Supervision, BACKOFF_SECS,
};

fn failed(action: &'static str, err: mio_httpc::Error) -> CallRecv {
    CallRecv { id: 1, call_result: Err(CallError { action, err }) }
}

#[test]
fn exception_kind_follows_the_cause() {
    assert_eq!(exception_for("a", CauseKind::Io, "b").kind, ExcKind::Os);
    assert_eq!(exception_for("a", CauseKind::TimeOut, "b").kind, ExcKind::Timeout);
    assert_eq!(exception_for("a", CauseKind::Other, "b").kind, ExcKind::Runtime);
    assert_eq!(exception_for("a", CauseKind::Other, "b").msg, "a - b");
}

#[test]
fn build_exc_classifies_transport_errors() {
    let io = std::io::Error::new(std::io::ErrorKind::Other, "down");
    let e = build_exc(&CallError { action: "couldn't send request", err: mio_httpc::Error::Io(io) });
    assert_eq!(e.kind, ExcKind::Os);
    assert!(e.msg.starts_with("couldn't send request - Io("));
    let e = build_exc(
        &CallError { action: "couldn't receive response", err: mio_httpc::Error::TimeOut },
    );
    assert_eq!(e.kind, ExcKind::Timeout);
    assert_eq!(e.msg, "couldn't receive response - TimeOut");
    let e = build_exc(&CallError { action: "couldn't create call", err: mio_httpc::Error::NoHost });
    assert_eq!(e.kind, ExcKind::Runtime);
    assert_eq!(e.msg, "couldn't create call - NoHost");
}

#[test]
fn get_hands_out_a_copy_of_the_response() {
    let r = CallRecv {
        id: 3,
        call_result: Ok(
            CallResponse {
                code: 200,
                headers: vec![("A".to_string(), "1".to_string()), ("A".to_string(), "2".to_string())],
                body: vec![1, 2, 3],
            },
        ),
    };
    match get(&r) {
        Ok(h) => {
            assert_eq!(h.get_code(), 200);
            assert_eq!(h.get_content_length(), 3);
            assert_eq!(
                h.headers(),
                &vec![("A".to_string(), "1".to_string()), ("A".to_string(), "2".to_string())]
            );
            assert_eq!(h.get_body(), &vec![1, 2, 3]);
        },
        Err(_) => panic!("expected a response"),
    }
}

#[test]
fn get_turns_a_failure_into_an_exception() {
    match get(&failed("couldn't create call", mio_httpc::Error::TimeOut)) {
        Err(x) => {
            assert_eq!(x.kind, ExcKind::Timeout);
            assert_eq!(x.msg, "couldn't create call - TimeOut");
        },
        Ok(_) => panic!("expected an exception"),
    }
}

#[test]
fn http_response_copies_its_source() {
    let src = CallResponse { code: 404, headers: vec![], body: vec![] };
    let h = HttpResponse::new(&src);
    assert_eq!(h.get_code(), 404);
    assert_eq!(h.get_content_length(), 0);
    assert!(h.headers().is_empty());
    assert_eq!(copy_bytes(&vec![9, 8]), vec![9, 8]);
    assert_eq!(
        copy_pairs(&vec![("k".to_string(), "v".to_string())]),
        vec![("k".to_string(), "v".to_string())]
    );
}

#[test]
fn log_tags_of_a_response() {
    let r = CallRecv {
        id: 3,
        call_result: Ok(CallResponse { code: 201, headers: vec![], body: vec![0; 17] }),
    };
    let tags = log_tags(&r);
    assert_eq!(tags.len(), 2);
    assert_eq!(tags[0].0, "http.code");
    assert!(matches!(tags[0].1, TagValue::Code(201)));
    assert_eq!(tags[1].0, "http.resp_content_length");
    assert!(matches!(tags[1].1, TagValue::Length(17)));
}

#[test]
fn log_tags_of_a_failure() {
    let tags = log_tags(&failed("couldn't send request", mio_httpc::Error::Closed));
    assert_eq!(tags.len(), 1);
    assert_eq!(tags[0].0, "error");
    match &tags[0].1 {
        TagValue::Text(t) => {
            assert_eq!(t, "CallError { action: \"couldn't send request\", err: Closed }");
            let same = CallError { action: "couldn't send request", err: mio_httpc::Error::Closed };
            assert_eq!(t, &format!("{:?}", same));
        },
        _ => panic!("expected a text"),
    }
    assert_eq!(error_tag_text("a", "B"), "CallError { action: \"a\", err: B }");
}

#[test]
fn clean_return_ends_supervision() {
    assert!(matches!(supervise("svc", Ok(())), Supervision::Done));
    assert!(matches!(after_exit("svc", Ok(())), Supervision::Done));
}

#[test]
fn fault_is_recorded_once_and_restarts_after_the_backoff() {
    match supervise("svc", Err("boom".to_string())) {
        Supervision::Restart { record, backoff_secs } => {
            assert_eq!(record.service, "svc");
            assert_eq!(record.msg, "call loop exited");
            assert_eq!(record.error, "boom");
            assert_eq!(record.level, "ERROR");
            assert_eq!(backoff_secs, 1);
            assert_eq!(backoff_secs, BACKOFF_SECS);
        },
        Supervision::Done => panic!("expected a restart"),
    }
}

#[test]
fn fault_detail_is_the_text_of_the_error() {
    match after_exit("svc", Err(mio_httpc::Error::NoSpace)) {
        Supervision::Restart { record, backoff_secs } => {
            assert_eq!(record.error, "NoSpace");
            assert_eq!(record.service, "svc");
            assert_eq!(backoff_secs, 1);
        },
        Supervision::Done => panic!("expected a restart"),
    }
}

#[test]
fn fault_line_is_one_json_object() {
    let m = fault_record("svc", "Io(\"x\")".to_string());
    assert_eq!(
        log_line(&m).unwrap(),
        "{\"service\":\"svc\",\"msg\":\"call loop exited\",\"error\":\"Io(\\\"x\\\")\",\"level\":\"ERROR\"}"
    );
    let v: serde_json::Value = serde_json::from_str(&log_line(&m).unwrap()).unwrap();
    assert_eq!(v["service"], "svc");
    assert_eq!(v["error"], "Io(\"x\")");
    assert_eq!(v["level"], "ERROR");
    assert_eq!(v["msg"], "call loop exited");
}

#[test]
fn frame_line_joins_the_fields_in_order() {
    assert_eq!(
        frame_line("1", "2", "3", "4"),
        "{\"service\":1,\"msg\":2,\"error\":3,\"level\":4}"
    );
}
