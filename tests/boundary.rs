use pps::api::{ErrorKind, Operation, OperationStatus};
use pps::boundary::{OperationLog, PollReply, Registry, DUPLICATE_CODE, NOT_FOUND_CODE};
use pps::client::EventStream;
use pps::operation::{start, Outcome};
use serde_json::Value;

fn ready(r: PollReply) -> Operation {
    match r {
        PollReply::Ready(s) => s,
        PollReply::Wait => panic!("expected a snapshot"),
    }
}

fn event(text: &str) -> Value {
    serde_json::from_str(text).unwrap()
}

#[test]
fn first_poll_returns_event_then_empty_running() {
    let mut reg = Registry::new();
    let id: u128 = 0x1234;
    assert_eq!(reg.start(id).unwrap().id, id);
    let (mut op, mut pw) = start::<Value>();
    let ev = event(r#"{"GenerateTest":{"test_id":3}}"#);
    reg.absorb(id, &mut op, Some(pw.send(ev.clone()))).unwrap();

    let s0 = ready(reg.poll(id, 0, false).unwrap());
    assert_eq!(s0.id, id);
    assert_eq!(s0.events, vec![ev]);
    assert!(s0.status == OperationStatus::Running);
    assert!(s0.error.is_none());

    let s1 = ready(reg.poll(id, 1, false).unwrap());
    assert!(s1.events.is_empty());
    assert!(s1.status == OperationStatus::Running);
}

#[test]
fn waiting_poll_on_running_operation_waits() {
    let mut reg = Registry::new();
    reg.start(5).unwrap();
    assert!(matches!(reg.poll(5, 0, true).unwrap(), PollReply::Wait));
    let (mut op, mut pw) = start::<Value>();
    reg.absorb(5, &mut op, Some(pw.send(event("1")))).unwrap();
    let s = ready(reg.poll(5, 0, true).unwrap());
    assert_eq!(s.events, vec![event("1")]);
    assert!(matches!(reg.poll(5, 1, true).unwrap(), PollReply::Wait));
}

#[test]
fn failed_operation_reports_same_error_at_every_cursor() {
    let mut reg = Registry::new();
    reg.start(9).unwrap();
    let (mut op, mut pw) = start::<Value>();
    reg.absorb(9, &mut op, Some(pw.send(event(r#""BuildChecker""#)))).unwrap();
    reg.absorb(9, &mut op, Some(pw.finish(Err("boom".to_string())))).unwrap();
    assert_eq!(op.outcome(), Outcome::Error("boom".to_string()));
    for skip in [0usize, 1, 2, 100] {
        for wait in [false, true] {
            let s = ready(reg.poll(9, skip, wait).unwrap());
            assert!(s.status == OperationStatus::Failed);
            assert_eq!(s.error.as_deref(), Some("boom"));
            assert_eq!(s.events.len(), if skip == 0 { 1 } else { 0 });
        }
    }
}

#[test]
fn completed_and_cancelled_map_to_completed() {
    let mut log = OperationLog::new();
    let (mut op, pw) = start::<Value>();
    log.absorb(&mut op, Some(pw.finish(Ok(()))));
    let s = log.snapshot(1, 0);
    assert!(s.status == OperationStatus::Completed);
    assert!(s.error.is_none());

    let mut log2 = OperationLog::new();
    let (mut op2, _pw2) = start::<Value>();
    log2.absorb(&mut op2, Some(pps::operation::ChannelMessage::Done(Outcome::Cancelled)));
    let s2 = log2.snapshot(2, 0);
    assert!(s2.status == OperationStatus::Completed);
    assert!(!matches!(log2.poll(2, 0, true), PollReply::Wait));
}

#[test]
fn severed_producer_fails_operation() {
    let mut log = OperationLog::new();
    let (mut op, _pw) = start::<Value>();
    log.absorb(&mut op, None);
    let s = log.snapshot(3, 0);
    assert!(s.status == OperationStatus::Failed);
    assert_eq!(s.error.as_deref(), Some("operation was stopped in unexpected way"));
}

#[test]
fn unknown_operation_is_not_found() {
    let reg = Registry::new();
    let err = match reg.poll(77, 0, false) {
        Err(e) => e,
        Ok(_) => panic!("expected an error"),
    };
    assert!(err.kind == ErrorKind::NotFound);
    assert_eq!(err.kind.http_status(), 404);
    assert_eq!(err.code, NOT_FOUND_CODE);
    assert_eq!(err.details, Value::String("00000000-0000-0000-0000-00000000004d".to_string()));
}

#[test]
fn duplicate_start_is_internal_error() {
    let mut reg = Registry::new();
    reg.start(1).unwrap();
    let err = match reg.start(1) {
        Err(e) => e,
        Ok(_) => panic!("expected an error"),
    };
    assert!(err.kind == ErrorKind::Internal);
    assert_eq!(err.kind.http_status(), 500);
    assert_eq!(err.code, DUPLICATE_CODE);
}

#[test]
fn absorb_into_unknown_operation_fails() {
    let mut reg = Registry::new();
    let (mut op, mut pw) = start::<Value>();
    assert!(reg.absorb(4, &mut op, Some(pw.send(event("2")))).is_err());
}

#[test]
fn structured_event_round_trips_through_log() {
    let mut reg = Registry::new();
    reg.start(11).unwrap();
    let (mut op, mut pw) = start::<Value>();
    let sent_event = event(r#"{"Property":{"property_name":"TimeLimit","property_value":"1000"}}"#);
    reg.absorb(11, &mut op, Some(pw.send(sent_event.clone()))).unwrap();
    let s = ready(reg.poll(11, 0, true).unwrap());
    let back = s.first_event().unwrap();
    let text = serde_json::to_string(&back).unwrap();
    let reparsed: Value = serde_json::from_str(&text).unwrap();
    assert_eq!(reparsed, sent_event);
    assert_eq!(reparsed["Property"]["property_value"], Value::String("1000".to_string()));
}

#[test]
fn stream_rebuilds_log_in_order() {
    let mut reg = Registry::new();
    reg.start(21).unwrap();
    let (mut op, mut pw) = start::<Value>();
    let sent = vec![event("1"), event(r#"{"a":[2]}"#), event(r#""three""#)];
    for ev in &sent {
        reg.absorb(21, &mut op, Some(pw.send(ev.clone()))).unwrap();
    }
    reg.absorb(21, &mut op, Some(pw.finish(Ok(())))).unwrap();

    let mut stream = EventStream::new();
    let mut got = Vec::new();
    let mut polls = 0;
    while let Some(skip) = stream.next_request(true) {
        let snap = ready(reg.poll(21, skip, true).unwrap());
        polls += 1;
        let done = snap.events.is_empty() && snap.status == OperationStatus::Completed;
        if let Some(Ok(v)) = stream.on_response::<Value, String>(Ok(snap.first_event())) {
            got.push(v);
        }
        if done {
            break;
        }
    }
    assert_eq!(got, sent);
    assert_eq!(polls, 4);
}
