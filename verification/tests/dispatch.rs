use httprint::dispatch::{
    handle_request, outcome_event, response_failure, step, LoopAction, LoopEvent, LoopState, Reply,
};
use httprint::error::{ErrorKind, InspectError};
use httprint::request::{Header, IncomingRequest};

fn post(content_type: &str, length: usize) -> IncomingRequest {
    IncomingRequest {
        method: "POST".to_string(),
        url: "/in".to_string(),
        version: "1.1".to_string(),
        headers: vec![Header { field: "Content-Type".to_string(), value: content_type.to_string() }],
        body_length: Some(length),
    }
}

#[test]
fn reply_is_empty_success() {
    let reply = Reply::empty_success();
    assert_eq!(reply.status, 200);
    assert!(reply.body.is_empty());
}

#[test]
fn handled_request_prints_and_replies() {
    let handled = handle_request(&post("text/plain", 2), Ok(b"hi".to_vec()));
    assert_eq!(
        handled.output,
        Some("POST /in HTTP/1.1\nContent-Type: text/plain\n\nhi\n\n---\n".to_string())
    );
    assert_eq!(handled.failure, None);
    assert_eq!(handled.reply, Reply { status: 200, body: vec![] });
}

#[test]
fn failed_read_still_replies() {
    let handled = handle_request(&post("text/plain", 2), Err("timed out".to_string()));
    assert_eq!(handled.output, None);
    assert_eq!(
        handled.failure,
        Some(InspectError { kind: ErrorKind::BodyRead, message: "timed out".to_string() })
    );
    assert_eq!(handled.reply, Reply { status: 200, body: vec![] });
}

#[test]
fn failed_drain_of_binary_is_no_failure() {
    let handled = handle_request(&post("application/octet-stream", 2), Err("reset".to_string()));
    assert_eq!(
        handled.output,
        Some(
            "POST /in HTTP/1.1\nContent-Type: application/octet-stream\n\n[binary data]\n\n---\n"
                .to_string()
        )
    );
    assert_eq!(handled.failure, None);
    assert_eq!(handled.reply.status, 200);
}

#[test]
fn undecodable_body_is_no_failure() {
    let handled = handle_request(&post("text/plain", 2), Ok(vec![0xff, 0xfe]));
    assert_eq!(handled.failure, None);
    assert_eq!(
        handled.output,
        Some("POST /in HTTP/1.1\nContent-Type: text/plain\n\n[non utf8 data]\n\n---\n".to_string())
    );
}

#[test]
fn response_failure_maps_the_message() {
    assert_eq!(response_failure(Ok(())), None);
    assert_eq!(
        response_failure(Err("broken pipe".to_string())),
        Some(InspectError { kind: ErrorKind::ResponseSend, message: "broken pipe".to_string() })
    );
}

#[test]
fn error_descriptions() {
    let bind = InspectError::new(ErrorKind::Bind, "address in use".to_string());
    assert_eq!(bind.describe(), "bind error: address in use");
    assert!(bind.is_fatal());
    let read = InspectError::new(ErrorKind::BodyRead, "eof".to_string());
    assert_eq!(read.describe(), "body read error: eof");
    assert!(!read.is_fatal());
    let send = InspectError::new(ErrorKind::ResponseSend, "".to_string());
    assert_eq!(send.describe(), "response send error: ");
    assert!(!send.is_fatal());
}

#[test]
fn loop_accepts_then_returns_to_idle() {
    assert_eq!(step(LoopState::Idle, LoopEvent::Accepted), (LoopState::Handling, LoopAction::Handle));
    assert_eq!(step(LoopState::Handling, LoopEvent::Completed), (LoopState::Idle, LoopAction::Await));
    assert_eq!(
        step(LoopState::Handling, LoopEvent::Failed),
        (LoopState::Idle, LoopAction::ReportThenAwait)
    );
}

#[test]
fn loop_ignores_events_out_of_place() {
    assert_eq!(step(LoopState::Idle, LoopEvent::Completed), (LoopState::Idle, LoopAction::Ignore));
    assert_eq!(step(LoopState::Idle, LoopEvent::Failed), (LoopState::Idle, LoopAction::Ignore));
    assert_eq!(
        step(LoopState::Handling, LoopEvent::Accepted),
        (LoopState::Handling, LoopAction::Ignore)
    );
}

#[test]
fn loop_goes_on_after_a_failure() {
    let mut state = LoopState::Idle;
    let outcomes = [LoopEvent::Failed, LoopEvent::Completed, LoopEvent::Failed, LoopEvent::Failed];
    let mut handled = 0;
    for outcome in outcomes {
        let (next, action) = step(state, LoopEvent::Accepted);
        assert_eq!(action, LoopAction::Handle);
        handled += 1;
        let (next, _) = step(next, outcome);
        state = next;
        assert_eq!(state, LoopState::Idle);
    }
    assert_eq!(handled, 4);
}

#[test]
fn outcome_is_failed_on_any_failure() {
    let failure = Some(InspectError::new(ErrorKind::ResponseSend, "x".to_string()));
    assert_eq!(outcome_event(&None, &None), LoopEvent::Completed);
    assert_eq!(outcome_event(&failure, &None), LoopEvent::Failed);
    assert_eq!(outcome_event(&None, &failure), LoopEvent::Failed);
    assert_eq!(outcome_event(&failure, &failure), LoopEvent::Failed);
}
