//! One request's way through the interceptor, as a state machine. The caller
//! does the waiting (for the next chunk, for the verifier, for the handler
//! downstream) and reports what came of it; the machine decides what is done
//! next.

use crate::body::{absorb, TransportError};
use crate::outcome::{OutcomeView, Reason, VerificationOutcome};
use crate::request::{Request, RequestHead, RequestHeadView, RequestView};
use crate::response::{build_failure_response, failure_response, Response, ResponseView};
use vstd::prelude::*;

verus! {

/// Where an interception stands.
#[derive(Debug)]
pub enum Interception {
    /// The body is being read into the buffer.
    Draining { head: RequestHead, buffered: Vec<u8> },
    /// The whole body is buffered and the verifier has been asked.
    Verifying { head: RequestHead, body: Vec<u8> },
    /// The request was handed to the handler downstream.
    Forwarding,
    /// The caller has its answer.
    Finished,
}

/// The mathematical value of an [`Interception`].
pub enum InterceptionView {
    Draining { head: RequestHeadView, buffered: Seq<u8> },
    Verifying { head: RequestHeadView, body: Seq<u8> },
    Forwarding,
    Finished,
}

impl View for Interception {
    type V = InterceptionView;

    open spec fn view(&self) -> InterceptionView {
        match *self {
            Interception::Draining { head, buffered } => InterceptionView::Draining {
                head: head@,
                buffered: buffered@,
            },
            Interception::Verifying { head, body } => InterceptionView::Verifying {
                head: head@,
                body: body@,
            },
            Interception::Forwarding => InterceptionView::Forwarding,
            Interception::Finished => InterceptionView::Finished,
        }
    }
}

/// What the caller reports. `R` is whatever the handler downstream returns,
/// its response or its error.
#[derive(Debug)]
pub enum Event<R> {
    /// The body stream gave a chunk.
    Chunk(Vec<u8>),
    /// The body stream is complete.
    EndOfBody,
    /// The body stream failed.
    TransportFailure(TransportError),
    /// The verifier has decided.
    Verdict(VerificationOutcome),
    /// The handler downstream has returned.
    DownstreamReturned(R),
}

/// The mathematical value of an [`Event`].
pub enum EventView<R> {
    Chunk(Seq<u8>),
    EndOfBody,
    TransportFailure,
    Verdict(OutcomeView),
    DownstreamReturned(R),
}

impl<R> View for Event<R> {
    type V = EventView<R>;

    open spec fn view(&self) -> EventView<R> {
        match *self {
            Event::Chunk(bytes) => EventView::Chunk(bytes@),
            Event::EndOfBody => EventView::EndOfBody,
            Event::TransportFailure(_) => EventView::TransportFailure,
            Event::Verdict(outcome) => EventView::Verdict(outcome@),
            Event::DownstreamReturned(returned) => EventView::DownstreamReturned(returned),
        }
    }
}

/// What the caller is to do next.
#[derive(Debug)]
pub enum Action<R> {
    /// Read the next item of the body stream.
    PullChunk,
    /// Ask the verifier about the head and the buffered body.
    Verify,
    /// Hand this request to the handler downstream.
    CallDownstream(Request),
    /// Answer with what the handler downstream returned.
    Return(R),
    /// Answer with this response, and log the reason.
    Reject { response: Response, reason: Reason },
    /// The event does not belong to this state; nothing is to be done.
    Ignore,
}

/// The mathematical value of an [`Action`].
pub enum ActionView<R> {
    PullChunk,
    Verify,
    CallDownstream(RequestView),
    Return(R),
    Reject { response: ResponseView, reason: Reason },
    Ignore,
}

impl<R> View for Action<R> {
    type V = ActionView<R>;

    open spec fn view(&self) -> ActionView<R> {
        match *self {
            Action::PullChunk => ActionView::PullChunk,
            Action::Verify => ActionView::Verify,
            Action::CallDownstream(request) => ActionView::CallDownstream(request@),
            Action::Return(returned) => ActionView::Return(returned),
            Action::Reject { response, reason } => ActionView::Reject {
                response: response@,
                reason,
            },
            Action::Ignore => ActionView::Ignore,
        }
    }
}

/// The state in which a request is taken in.
pub open spec fn initial(head: RequestHeadView) -> InterceptionView {
    InterceptionView::Draining { head, buffered: Seq::<u8>::empty() }
}

/// The refusal that goes with a reason.
pub open spec fn refusal<R>(reason: Reason) -> ActionView<R> {
    ActionView::Reject { response: failure_response(), reason }
}

/// The machine: the state after an event, and the action that it calls for.
pub open spec fn step_model<R>(state: InterceptionView, event: EventView<R>) -> (
    InterceptionView,
    ActionView<R>,
) {
    match state {
        InterceptionView::Draining { head, buffered } => match event {
            EventView::Chunk(bytes) => (
                InterceptionView::Draining { head, buffered: buffered + bytes },
                ActionView::PullChunk,
            ),
            EventView::EndOfBody => (
                InterceptionView::Verifying { head, body: buffered },
                ActionView::Verify,
            ),
            EventView::TransportFailure => (
                InterceptionView::Finished,
                refusal(Reason::TransportReadFailure),
            ),
            _ => (state, ActionView::Ignore),
        },
        InterceptionView::Verifying { head, body } => match event {
            EventView::Verdict(OutcomeView::Verified(principal)) => (
                InterceptionView::Forwarding,
                ActionView::CallDownstream(
                    RequestView { head: head.with_principal(principal), body },
                ),
            ),
            EventView::Verdict(OutcomeView::Failed(reason)) => (
                InterceptionView::Finished,
                refusal(reason),
            ),
            _ => (state, ActionView::Ignore),
        },
        InterceptionView::Forwarding => match event {
            EventView::DownstreamReturned(returned) => (
                InterceptionView::Finished,
                ActionView::Return(returned),
            ),
            _ => (state, ActionView::Ignore),
        },
        InterceptionView::Finished => (state, ActionView::Ignore),
    }
}

impl Interception {
    /// Takes one event. The buffer grows by each chunk; the end of the body
    /// leads to verification; a verified request goes downstream with the
    /// identity attached and the buffered body, and what comes back is
    /// returned as it is; a transport failure or a failed verification ends
    /// in the refusal. An event that the state does not wait for changes
    /// nothing.
    pub fn step<R>(self, event: Event<R>) -> (next: (Interception, Action<R>))
        ensures
            (next.0@, next.1@) == step_model(self@, event@),
    {
        match self {
            Interception::Draining { head, buffered } => match event {
                Event::Chunk(bytes) => {
                    let mut buffered = buffered;
                    absorb(&mut buffered, bytes);
                    (Interception::Draining { head, buffered }, Action::PullChunk)
                },
                Event::EndOfBody => (
                    Interception::Verifying { head, body: buffered },
                    Action::Verify,
                ),
                Event::TransportFailure(_) => (
                    Interception::Finished,
                    reject(Reason::TransportReadFailure),
                ),
                _ => (Interception::Draining { head, buffered }, Action::Ignore),
            },
            Interception::Verifying { head, body } => match event {
                Event::Verdict(VerificationOutcome::Verified(principal)) => {
                    let mut head = head;
                    head.attach_principal(principal);
                    (Interception::Forwarding, Action::CallDownstream(Request { head, body }))
                },
                Event::Verdict(VerificationOutcome::Failed(reason)) => (
                    Interception::Finished,
                    reject(reason),
                ),
                _ => (Interception::Verifying { head, body }, Action::Ignore),
            },
            Interception::Forwarding => match event {
                Event::DownstreamReturned(returned) => (
                    Interception::Finished,
                    Action::Return(returned),
                ),
                _ => (Interception::Forwarding, Action::Ignore),
            },
            Interception::Finished => (Interception::Finished, Action::Ignore),
        }
    }
}

/// No refusal tells the caller why: the response is the same for any two
/// reasons, status 401 with the fixed JSON body.
pub proof fn lemma_refusals_are_indistinguishable<R>(first: Reason, second: Reason)
    ensures
        refusal::<R>(first)->response == refusal::<R>(second)->response,
        refusal::<R>(first)->response.status == 401,
        refusal::<R>(first)->response.body == vstd::utf8::encode_utf8(
            crate::response::failure_body_text(),
        ),
{
}

/// The refusal as an action: the uniform response, with the reason beside it
/// for the log.
pub fn reject<R>(reason: Reason) -> (action: Action<R>)
    ensures
        action@ == refusal::<R>(reason),
{
    Action::Reject { response: build_failure_response(reason), reason }
}

} // verus!
