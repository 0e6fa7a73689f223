//! The decisions of the sequential loop: what handling one request asks for,
//! and how the loop moves between waiting and handling.

use vstd::prelude::*;
use crate::error::{ErrorKind, InspectError};
use crate::render::{compose, read_failure_counts, spec_body_text, spec_layout, text_view};
use crate::request::IncomingRequest;

verus! {

/// The response that is sent to a client.
#[derive(Clone, Debug, PartialEq, Eq)]
pub struct Reply {
    pub status: u16,
    pub body: Vec<u8>,
}

impl Reply {
    /// Status 200 with no body.
    pub open spec fn is_empty_success(&self) -> bool {
        self.status == 200 && self.body@.len() == 0
    }

    /// The fixed response of the inspector.
    pub fn empty_success() -> (r: Reply)
        ensures
            r.is_empty_success(),
    {
        Reply { status: 200, body: Vec::new() }
    }
}

/// What is to be done for one request: the report to print, if rendering
/// gave one; the failure to report, if it did not; and the one response to send.
#[derive(Clone, Debug, PartialEq, Eq)]
pub struct Handled {
    pub output: Option<String>,
    pub failure: Option<InspectError>,
    pub reply: Reply,
}

/// Handles one request from the outcome of reading its body. The response is
/// the empty success whatever the request holds and whatever rendering
/// gave; the report is printed exactly where rendering succeeded, and a
/// body-read failure is reported where it did not.
pub fn handle_request(req: &IncomingRequest, read: Result<Vec<u8>, String>) -> (h: Handled)
    ensures
        h.reply.is_empty_success(),
        h.output.is_some() != h.failure.is_some(),
        match read {
            Ok(bytes) => text_view(h.output) == Some(
                spec_layout(req@, spec_body_text(req@, bytes@)),
            ),
            Err(message) => if read_failure_counts(req@) {
                h.failure.is_some() && h.failure.unwrap().kind == ErrorKind::BodyRead
                    && h.failure.unwrap().message@ == message@
            } else {
                text_view(h.output) == Some(spec_layout(req@, spec_body_text(req@, Seq::empty())))
            },
        },
{
    match compose(req, read) {
        Ok(report) => Handled { output: Some(report), failure: None, reply: Reply::empty_success() },
        Err(failure) => Handled {
            output: None,
            failure: Some(failure),
            reply: Reply::empty_success(),
        },
    }
}

/// Turns the outcome of sending the response into the failure to report:
/// none where it was sent, a send failure with the given message otherwise.
pub fn response_failure(sent: Result<(), String>) -> (r: Option<InspectError>)
    ensures
        match sent {
            Ok(_) => r.is_none(),
            Err(message) => r.is_some() && r.unwrap().kind == ErrorKind::ResponseSend
                && r.unwrap().message@ == message@,
        },
{
    match sent {
        Ok(_) => None,
        Err(message) => Some(InspectError::new(ErrorKind::ResponseSend, message)),
    }
}

/// The two states of the loop.
#[derive(Clone, Copy, Debug, PartialEq, Eq)]
pub enum LoopState {
    Idle,
    Handling,
}

/// What can happen to the loop: a request is accepted, or the handling of
/// the current one ends, well or with a reported failure.
#[derive(Clone, Copy, Debug, PartialEq, Eq)]
pub enum LoopEvent {
    Accepted,
    Completed,
    Failed,
}

/// What the loop does next.
#[derive(Clone, Copy, Debug, PartialEq, Eq)]
pub enum LoopAction {
    /// Render the accepted request and respond to it.
    Handle,
    /// Wait for the next request.
    Await,
    /// Write the failure to the error output, then wait for the next request.
    ReportThenAwait,
    /// The event does not belong to the state: nothing is done.
    Ignore,
}

/// The transition of the loop. Accepting moves it from idle to handling;
/// the end of handling moves it back, through a report where handling
/// failed. An event that does not belong to the state changes nothing.
pub open spec fn spec_step(state: LoopState, event: LoopEvent) -> (LoopState, LoopAction) {
    match (state, event) {
        (LoopState::Idle, LoopEvent::Accepted) => (LoopState::Handling, LoopAction::Handle),
        (LoopState::Handling, LoopEvent::Completed) => (LoopState::Idle, LoopAction::Await),
        (LoopState::Handling, LoopEvent::Failed) => (LoopState::Idle, LoopAction::ReportThenAwait),
        (LoopState::Idle, _) => (LoopState::Idle, LoopAction::Ignore),
        (LoopState::Handling, LoopEvent::Accepted) => (LoopState::Handling, LoopAction::Ignore),
    }
}

/// Moves the loop by one event and says what to do next.
pub fn step(state: LoopState, event: LoopEvent) -> (r: (LoopState, LoopAction))
    ensures
        r == spec_step(state, event),
{
    match state {
        LoopState::Idle => match event {
            LoopEvent::Accepted => (LoopState::Handling, LoopAction::Handle),
            LoopEvent::Completed => (LoopState::Idle, LoopAction::Ignore),
            LoopEvent::Failed => (LoopState::Idle, LoopAction::Ignore),
        },
        LoopState::Handling => match event {
            LoopEvent::Accepted => (LoopState::Handling, LoopAction::Ignore),
            LoopEvent::Completed => (LoopState::Idle, LoopAction::Await),
            LoopEvent::Failed => (LoopState::Idle, LoopAction::ReportThenAwait),
        },
    }
}

/// The event that ends the handling of a request, from the failures that
/// its steps gave.
pub fn outcome_event(render_failure: &Option<InspectError>, send_failure: &Option<InspectError>) -> (r:
    LoopEvent)
    ensures
        r == if render_failure.is_some() || send_failure.is_some() {
            LoopEvent::Failed
        } else {
            LoopEvent::Completed
        },
{
    if render_failure.is_some() || send_failure.is_some() {
        LoopEvent::Failed
    } else {
        LoopEvent::Completed
    }
}

/// A failure while handling one request does not keep the next from being
/// accepted and handled: however handling ends, the loop is idle again, and
/// an idle loop takes the next request.
pub proof fn lemma_failure_does_not_stop_the_loop(outcome: LoopEvent)
    requires
        outcome != LoopEvent::Accepted,
    ensures
        spec_step(LoopState::Handling, outcome).0 == LoopState::Idle,
        spec_step(spec_step(LoopState::Handling, outcome).0, LoopEvent::Accepted) == (
            LoopState::Handling,
            LoopAction::Handle,
        ),
{
}

/// The loop has no state in which it stays for ever: from each state some
/// event leads to the other.
pub proof fn lemma_no_terminal_state(state: LoopState)
    ensures
        exists|event: LoopEvent| (#[trigger] spec_step(state, event)).0 != state,
{
    match state {
        LoopState::Idle => {
            assert(spec_step(state, LoopEvent::Accepted).0 != state);
        },
        LoopState::Handling => {
            assert(spec_step(state, LoopEvent::Completed).0 != state);
        },
    }
}

} // verus!
