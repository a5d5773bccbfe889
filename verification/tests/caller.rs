use std::sync::mpsc::{channel, Receiver, Sender};
use wsgidragoncall::call_loop::{construction_failed, CallRecv, CallResponse, CallSend};
use wsgidragoncall::caller::{deadline, decimal_string, CallerError, InnerCaller};
use wsgidragoncall::engine::CallLoop;

fn caller() -> (InnerCaller, Receiver<CallSend>, Sender<CallRecv>) {
    let (inq_s, inq_r) = channel();
    let (outq_s, outq_r) = channel();
    (InnerCaller::new(inq_s, outq_r), inq_r, outq_s)
}

fn submit(c: &mut InnerCaller) -> i32 {
    c.call(
        "GET".to_string(),
        "example.org".to_string(),
        80,
        vec![],
        false,
        vec![],
        vec![],
        vec![],
        1000,
        1_700_000_000,
        0,
    ).expect("an identifier")
}

fn response(id: i32, code: u16) -> CallRecv {
    CallRecv { id, call_result: Ok(CallResponse { code, headers: vec![], body: vec![] }) }
}

fn code_of(r: &CallRecv) -> u16 {
    match &r.call_result {
        Ok(resp) => resp.code,
        Err(_) => panic!("expected a response"),
    }
}

#[test]
fn decimal_string_writes_plain_decimal() {
    assert_eq!(decimal_string(0), "0");
    assert_eq!(decimal_string(7), "7");
    assert_eq!(decimal_string(10), "10");
    assert_eq!(decimal_string(1_700_000_001), "1700000001");
    assert_eq!(decimal_string(u64::MAX), "18446744073709551615");
}

#[test]
fn deadline_adds_the_timeout_and_drops_the_fraction() {
    assert_eq!(deadline(1000, 0, 0), 1000);
    assert_eq!(deadline(1000, 0, 999), 1000);
    assert_eq!(deadline(1000, 0, 1000), 1001);
    assert_eq!(deadline(1000, 999_999_999, 1), 1001);
    assert_eq!(deadline(1000, 999_999_999, 1500), 1002);
    assert_eq!(deadline(1000, 500_000_000, 499), 1000);
    assert_eq!(deadline(1000, 500_000_000, 500), 1001);
}

#[test]
fn identifiers_start_at_one_and_increase() {
    let (mut c, inq, _outq) = caller();
    assert_eq!(c.last_id(), 0);
    let a = submit(&mut c);
    let b = submit(&mut c);
    let d = submit(&mut c);
    assert_eq!((a, b, d), (1, 2, 3));
    assert_eq!(c.last_id(), 3);
    assert_eq!(inq.try_recv().unwrap().id, 1);
    assert_eq!(inq.try_recv().unwrap().id, 2);
    assert_eq!(inq.try_recv().unwrap().id, 3);
}

#[test]
fn identifiers_keep_increasing_after_clear() {
    let (mut c, _inq, _outq) = caller();
    assert_eq!(submit(&mut c), 1);
    c.clear();
    assert_eq!(submit(&mut c), 2);
    assert_eq!(c.get_id(), 3);
}

#[test]
fn call_forwards_the_request_with_the_deadline_header() {
    let (mut c, inq, _outq) = caller();
    let id = c.call(
        "PUT".to_string(),
        "h".to_string(),
        8443,
        vec!["x".to_string()],
        true,
        vec![("k".to_string(), "v".to_string())],
        vec![("Accept".to_string(), "*/*".to_string())],
        vec![1, 2],
        2500,
        1_700_000_000,
        600_000_000,
    ).unwrap();
    let s = inq.try_recv().unwrap();
    assert_eq!(s.id, id);
    assert_eq!(s.timeout_ms, 2500);
    assert_eq!(s.method, "PUT");
    assert_eq!(s.host, "h");
    assert_eq!(s.port, 8443);
    assert_eq!(s.path_segms, vec!["x".to_string()]);
    assert!(s.use_ssl);
    assert_eq!(s.params, vec![("k".to_string(), "v".to_string())]);
    assert_eq!(
        s.headers,
        vec![
            ("Accept".to_string(), "*/*".to_string()),
            ("X-Timeout".to_string(), "1700000003".to_string()),
        ]
    );
    assert_eq!(s.body, vec![1, 2]);
}

#[test]
fn call_stamps_trace_and_client_before_the_deadline() {
    let (mut c, inq, _outq) = caller();
    c.set_trace("abc", "def");
    c.set_client("billing");
    submit(&mut c);
    let s = inq.try_recv().unwrap();
    assert_eq!(
        s.headers,
        vec![
            ("Traceparent".to_string(), "00-abc-def-00".to_string()),
            ("X-Client".to_string(), "billing".to_string()),
            ("X-Timeout".to_string(), "1700000001".to_string()),
        ]
    );
}

#[test]
fn prepare_does_not_touch_the_channel() {
    let (mut c, inq, _outq) = caller();
    let s = c.prepare(
        "GET".to_string(),
        "h".to_string(),
        80,
        vec![],
        false,
        vec![],
        vec![],
        vec![],
        10,
        99,
    );
    assert_eq!(s.id, 1);
    assert_eq!(s.headers, vec![("X-Timeout".to_string(), "99".to_string())]);
    assert!(inq.try_recv().is_err());
    assert_eq!(c.block_on_ids(&vec![1]), Ok(None));
}

#[test]
fn call_reports_a_missing_event_loop() {
    let (mut c, inq, _outq) = caller();
    drop(inq);
    let r = c.call(
        "GET".to_string(),
        "h".to_string(),
        80,
        vec![],
        false,
        vec![],
        vec![],
        vec![],
        10,
        5,
        0,
    );
    assert_eq!(r, Err(CallerError::TransportUnavailable));
    assert_eq!(c.last_id(), 1);
}

#[test]
fn poll_ready_is_absent_until_the_completion_arrives() {
    let (mut c, _inq, outq) = caller();
    let id = submit(&mut c);
    assert!(c.poll_ready(id).is_none());
    outq.send(response(id, 200)).unwrap();
    let r = c.poll_ready(id).expect("a completion");
    assert_eq!(r.id, id);
    assert_eq!(code_of(&r), 200);
}

#[test]
fn poll_ready_is_idempotent_after_completion() {
    let (mut c, _inq, outq) = caller();
    let a = submit(&mut c);
    let b = submit(&mut c);
    outq.send(response(a, 201)).unwrap();
    let first = c.poll_ready(a).expect("a completion");
    outq.send(response(b, 500)).unwrap();
    outq.send(response(a, 404)).unwrap();
    let second = c.poll_ready(a).expect("a completion");
    let third = c.poll_ready(a).expect("a completion");
    assert_eq!(code_of(&first), 201);
    assert_eq!(code_of(&second), 201);
    assert_eq!(code_of(&third), 201);
    assert!(std::sync::Arc::ptr_eq(&first, &second));
    assert_eq!(c.block_on_ids(&vec![a, b]), Ok(Some(a)));
}

#[test]
fn a_second_completion_for_an_identifier_is_dropped() {
    let (mut c, _inq, _outq) = caller();
    let a = submit(&mut c);
    c.add_call_recv(response(a, 200));
    c.add_call_recv(response(a, 500));
    assert_eq!(code_of(&c.completed(a).unwrap()), 200);
}

#[test]
fn completions_for_unknown_identifiers_are_dropped() {
    let (mut c, _inq, outq) = caller();
    let a = submit(&mut c);
    outq.send(response(a + 10, 200)).unwrap();
    assert!(c.poll_ready(a + 10).is_none());
    assert!(c.poll_ready(a).is_none());
    c.file_arrived(vec![response(77, 200), response(a, 202), response(a, 203)]);
    assert!(c.completed(77).is_none());
    assert_eq!(code_of(&c.completed(a).unwrap()), 202);
}

#[test]
fn block_on_ids_rejects_an_unknown_identifier() {
    let (mut c, _inq, outq) = caller();
    let a = submit(&mut c);
    outq.send(response(a, 200)).unwrap();
    assert_eq!(c.block_on_ids(&vec![a, 42, 43]), Err(CallerError::UnknownId(42)));
    assert!(c.completed(a).is_none());
    assert_eq!(c.find_unknown(&vec![a, 43, 42]), Some(43));
    assert_eq!(c.find_unknown(&vec![a]), None);
}

#[test]
fn block_on_ids_returns_the_completed_one_in_any_order() {
    let (mut c, _inq, outq) = caller();
    let a = submit(&mut c);
    let b = submit(&mut c);
    outq.send(response(a, 200)).unwrap();
    assert_eq!(c.block_on_ids(&vec![a, b]), Ok(Some(a)));
    assert_eq!(c.block_on_ids(&vec![b, a]), Ok(Some(a)));
}

#[test]
fn block_on_ids_breaks_ties_by_the_order_given() {
    let (mut c, _inq, outq) = caller();
    let a = submit(&mut c);
    let b = submit(&mut c);
    outq.send(response(b, 200)).unwrap();
    outq.send(response(a, 200)).unwrap();
    assert_eq!(c.block_on_ids(&vec![a, b]), Ok(Some(a)));
    assert_eq!(c.block_on_ids(&vec![b, a]), Ok(Some(b)));
    assert_eq!(c.find_ready(&vec![b, a]), Some(b));
}

#[test]
fn block_on_ids_has_to_wait_when_nothing_is_there() {
    let (mut c, _inq, _outq) = caller();
    let a = submit(&mut c);
    assert_eq!(c.block_on_ids(&vec![a]), Ok(None));
    assert_eq!(c.block_on_ids(&vec![]), Ok(None));
}

#[test]
fn waiting_returns_the_first_requested_completion_to_arrive() {
    let (mut c, _inq, outq) = caller();
    let a = submit(&mut c);
    let b = submit(&mut c);
    let d = submit(&mut c);
    let ids = vec![a, d];
    assert_eq!(c.block_on_ids(&ids), Ok(None));
    outq.send(response(b, 200)).unwrap();
    outq.send(response(d, 200)).unwrap();
    outq.send(response(a, 200)).unwrap();
    assert_eq!(c.wait_next(&ids), Ok(None));
    assert_eq!(c.wait_next(&ids), Ok(Some(d)));
    assert!(c.completed(b).is_some());
    assert!(c.completed(a).is_none());
    assert_eq!(c.block_on_ids(&vec![a]), Ok(Some(a)));
}

#[test]
fn on_arrival_files_and_reports_a_hit() {
    let (mut c, _inq, _outq) = caller();
    let a = submit(&mut c);
    let b = submit(&mut c);
    assert_eq!(c.on_arrival(response(b, 200), &vec![a]), None);
    assert!(c.completed(b).is_some());
    assert_eq!(c.on_arrival(response(a, 200), &vec![a]), Some(a));
    assert_eq!(c.on_arrival(response(99, 200), &vec![99]), Some(99));
    assert!(c.completed(99).is_none());
}

#[test]
fn waiting_on_a_closed_channel_fails() {
    let (mut c, _inq, outq) = caller();
    let a = submit(&mut c);
    drop(outq);
    assert_eq!(c.wait_next(&vec![a]), Err(CallerError::ChannelClosed));
}

#[test]
fn clear_forgets_every_identifier() {
    let (mut c, _inq, outq) = caller();
    let a = submit(&mut c);
    let b = submit(&mut c);
    outq.send(response(a, 200)).unwrap();
    assert!(c.poll_ready(a).is_some());
    c.clear();
    assert_eq!(c.block_on_ids(&vec![a]), Err(CallerError::UnknownId(a)));
    assert_eq!(c.block_on_ids(&vec![b, a]), Err(CallerError::UnknownId(b)));
    assert!(c.poll_ready(a).is_none());
    outq.send(response(b, 200)).unwrap();
    assert!(c.poll_ready(b).is_none());
    assert!(c.completed(b).is_none());
}

#[test]
fn failed_construction_reaches_the_caller_as_a_failure() {
    let (mut c, inq, outq) = caller();
    let id = submit(&mut c);
    assert_eq!(id, 1);
    let mut l = CallLoop::new();
    let s = inq.try_recv().unwrap();
    let done = l.accept(s.id, Err(mio_httpc::Error::NoHost)).expect("a completion");
    assert!(l.is_idle());
    outq.send(done).unwrap();
    let r = c.poll_ready(1).expect("a completion");
    match &r.call_result {
        Err(e) => {
            assert_eq!(e.action, "couldn't create call");
            assert!(matches!(e.err, mio_httpc::Error::NoHost));
        },
        Ok(_) => panic!("expected a failure"),
    }
    let again = construction_failed(1, mio_httpc::Error::NoHost);
    assert_eq!(again.id, r.id);
}
