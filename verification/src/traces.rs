//! Whole interceptions: what the machine does over a sequence of events, and
//! the laws that hold of every such sequence.

use crate::interception::{initial, refusal, step_model, ActionView, EventView, InterceptionView};
use crate::outcome::{OutcomeView, Reason};
use crate::principal::PrincipalView;
use crate::request::{RequestHeadView, RequestView};
use crate::response::failure_response;
use vstd::prelude::*;

verus! {

/// The state after a sequence of events, and the actions that they called
/// for, one for each event.
pub open spec fn run<R>(state: InterceptionView, events: Seq<EventView<R>>) -> (
    InterceptionView,
    Seq<ActionView<R>>,
)
    decreases events.len(),
{
    if events.len() == 0 {
        (state, Seq::empty())
    } else {
        let earlier = run(state, events.drop_last());
        let last = step_model(earlier.0, events.last());
        (last.0, earlier.1.push(last.1))
    }
}

/// A body that arrives in the given chunks, as events.
pub open spec fn chunk_events<R>(chunks: Seq<Seq<u8>>) -> Seq<EventView<R>> {
    Seq::new(chunks.len(), |i: int| EventView::Chunk(chunks[i]))
}

/// `count` requests for the next chunk.
pub open spec fn pulls<R>(count: nat) -> Seq<ActionView<R>> {
    Seq::new(count, |i: int| ActionView::PullChunk)
}

/// `count` events that changed nothing.
pub open spec fn ignores<R>(count: nat) -> Seq<ActionView<R>> {
    Seq::new(count, |i: int| ActionView::Ignore)
}

/// True when the handler downstream is invoked somewhere in the trace.
pub open spec fn calls_downstream<R>(actions: Seq<ActionView<R>>) -> bool {
    exists|i: int| 0 <= i < actions.len() && (#[trigger] actions[i]) is CallDownstream
}

/// True when the trace holds a refusal.
pub open spec fn refuses<R>(actions: Seq<ActionView<R>>) -> bool {
    exists|i: int| 0 <= i < actions.len() && (#[trigger] actions[i]) is Reject
}

/// True when the verifier is asked somewhere in the trace.
pub open spec fn asks_verifier<R>(actions: Seq<ActionView<R>>) -> bool {
    exists|i: int| 0 <= i < actions.len() && (#[trigger] actions[i]) is Verify
}

/// Each event calls for exactly one action.
pub proof fn lemma_run_length<R>(state: InterceptionView, events: Seq<EventView<R>>)
    ensures
        run(state, events).1.len() == events.len(),
    decreases events.len(),
{
    if events.len() > 0 {
        lemma_run_length(state, events.drop_last());
    }
}

/// Running one event is one step of the machine.
pub proof fn lemma_run_one<R>(state: InterceptionView, event: EventView<R>)
    ensures
        run(state, seq![event]) == (
            step_model(state, event).0,
            seq![step_model(state, event).1],
        ),
{
    let events = seq![event];
    assert(events.drop_last() =~= Seq::<EventView<R>>::empty());
    assert(run(state, events.drop_last()) == (state, Seq::<ActionView<R>>::empty()));
    assert(Seq::<ActionView<R>>::empty().push(step_model(state, event).1) =~= seq![
        step_model(state, event).1,
    ]);
}

/// A run can be cut anywhere: the second part goes on from the state that the
/// first part ended in.
pub proof fn lemma_run_concat<R>(
    state: InterceptionView,
    first: Seq<EventView<R>>,
    second: Seq<EventView<R>>,
)
    ensures
        run(state, first + second) == (
            run(run(state, first).0, second).0,
            run(state, first).1 + run(run(state, first).0, second).1,
        ),
    decreases second.len(),
{
    let middle = run(state, first);
    if second.len() == 0 {
        assert(first + second =~= first);
        assert(middle.1 + Seq::<ActionView<R>>::empty() =~= middle.1);
    } else {
        let whole = first + second;
        assert(whole.drop_last() =~= first + second.drop_last());
        assert(whole.last() == second.last());
        lemma_run_concat(state, first, second.drop_last());
        let tail = run(middle.0, second.drop_last());
        let last = step_model(tail.0, second.last());
        assert((middle.1 + tail.1).push(last.1) =~= middle.1 + tail.1.push(last.1));
    }
}

/// While chunks arrive the machine stays draining: the buffer is the
/// concatenation of the chunks in order, and each chunk asks for the next.
pub proof fn lemma_drain<R>(head: RequestHeadView, chunks: Seq<Seq<u8>>)
    ensures
        run(initial(head), chunk_events::<R>(chunks)) == (
            InterceptionView::Draining { head, buffered: chunks.flatten() },
            pulls::<R>(chunks.len()),
        ),
    decreases chunks.len(),
{
    let events = chunk_events::<R>(chunks);
    if chunks.len() == 0 {
        assert(chunks.flatten() =~= Seq::<u8>::empty());
        assert(pulls::<R>(0) =~= Seq::<ActionView<R>>::empty());
    } else {
        let before = chunks.drop_last();
        lemma_drain::<R>(head, before);
        assert(events.drop_last() =~= chunk_events::<R>(before));
        assert(chunks =~= before.push(chunks.last()));
        before.lemma_flatten_push(chunks.last());
        assert(pulls::<R>(before.len()).push(ActionView::PullChunk) =~= pulls::<R>(chunks.len()));
    }
}

/// Once the caller has its answer, no event changes anything.
pub proof fn lemma_finished_is_final<R>(events: Seq<EventView<R>>)
    ensures
        run(InterceptionView::Finished, events) == (
            InterceptionView::Finished,
            ignores::<R>(events.len()),
        ),
    decreases events.len(),
{
    if events.len() == 0 {
        assert(ignores::<R>(0) =~= Seq::<ActionView<R>>::empty());
    } else {
        lemma_finished_is_final(events.drop_last());
        assert(ignores::<R>((events.len() - 1) as nat).push(ActionView::Ignore) =~= ignores::<R>(
            events.len(),
        ));
    }
}

/// The events of a request whose body arrives whole and whose signature
/// verifies, up to the handler's return.
pub open spec fn admitted_events<R>(
    chunks: Seq<Seq<u8>>,
    principal: PrincipalView,
    returned: R,
) -> Seq<EventView<R>> {
    chunk_events(chunks) + seq![
        EventView::EndOfBody,
        EventView::Verdict(OutcomeView::Verified(principal)),
        EventView::DownstreamReturned(returned),
    ]
}

/// A request with a valid signature reaches the handler downstream with the
/// body that was sent, byte for byte, whatever the chunk boundaries were, and
/// with the caller's identity attached; the head is otherwise unchanged. The
/// caller gets exactly what the handler returned.
pub proof fn lemma_admitted_request_is_forwarded_intact<R>(
    head: RequestHeadView,
    chunks: Seq<Seq<u8>>,
    principal: PrincipalView,
    returned: R,
)
    ensures
        run(initial(head), admitted_events(chunks, principal, returned)) == (
            InterceptionView::Finished,
            pulls::<R>(chunks.len()) + seq![
                ActionView::Verify,
                ActionView::CallDownstream(
                    RequestView { head: head.with_principal(principal), body: chunks.flatten() },
                ),
                ActionView::Return(returned),
            ],
        ),
{
    let drained = InterceptionView::Draining { head, buffered: chunks.flatten() };
    let verifying = InterceptionView::Verifying { head, body: chunks.flatten() };
    let end = EventView::<R>::EndOfBody;
    let verdict = EventView::<R>::Verdict(OutcomeView::Verified(principal));
    let back = EventView::DownstreamReturned(returned);
    let tail = seq![end, verdict, back];
    lemma_drain::<R>(head, chunks);
    lemma_run_concat(initial(head), chunk_events::<R>(chunks), tail);
    assert(tail =~= seq![end] + seq![verdict] + seq![back]);
    lemma_run_one(drained, end);
    lemma_run_one(verifying, verdict);
    lemma_run_one(InterceptionView::Forwarding, back);
    lemma_run_concat(drained, seq![end], seq![verdict]);
    lemma_run_concat(drained, seq![end] + seq![verdict], seq![back]);
    let request = RequestView { head: head.with_principal(principal), body: chunks.flatten() };
    assert(seq![ActionView::<R>::Verify] + seq![ActionView::<R>::CallDownstream(request)] + seq![
        ActionView::Return(returned),
    ] =~= seq![
        ActionView::Verify,
        ActionView::CallDownstream(request),
        ActionView::Return(returned),
    ]);
}

/// The events of a request whose body arrives whole and whose signature does
/// not verify, followed by whatever is reported after that.
pub open spec fn refused_events<R>(
    chunks: Seq<Seq<u8>>,
    reason: Reason,
    later: Seq<EventView<R>>,
) -> Seq<EventView<R>> {
    chunk_events(chunks) + seq![
        EventView::EndOfBody,
        EventView::Verdict(OutcomeView::Failed(reason)),
    ] + later
}

/// A request whose signature does not verify is answered with the refusal,
/// and the handler downstream is not invoked, then or later. The response is
/// the same for every reason.
pub proof fn lemma_refused_request_stops_at_the_gate<R>(
    head: RequestHeadView,
    chunks: Seq<Seq<u8>>,
    reason: Reason,
    later: Seq<EventView<R>>,
)
    ensures
        run(initial(head), refused_events(chunks, reason, later)) == (
            InterceptionView::Finished,
            pulls::<R>(chunks.len()) + seq![
                ActionView::Verify,
                ActionView::Reject { response: failure_response(), reason },
            ] + ignores::<R>(later.len()),
        ),
        !calls_downstream(run(initial(head), refused_events(chunks, reason, later)).1),
{
    let drained = InterceptionView::Draining { head, buffered: chunks.flatten() };
    let verifying = InterceptionView::Verifying { head, body: chunks.flatten() };
    let end = EventView::<R>::EndOfBody;
    let verdict = EventView::<R>::Verdict(OutcomeView::Failed(reason));
    let decisive = seq![end, verdict];
    lemma_drain::<R>(head, chunks);
    assert(decisive =~= seq![end] + seq![verdict]);
    lemma_run_one(drained, end);
    lemma_run_one(verifying, verdict);
    lemma_run_concat(drained, seq![end], seq![verdict]);
    lemma_run_concat(initial(head), chunk_events::<R>(chunks), decisive);
    lemma_finished_is_final(later);
    lemma_run_concat(initial(head), chunk_events::<R>(chunks) + decisive, later);
    assert(seq![ActionView::<R>::Verify] + seq![refusal::<R>(reason)] =~= seq![
        ActionView::Verify,
        ActionView::Reject { response: failure_response(), reason },
    ]);
}

/// The events of a body stream that fails after some chunks, followed by
/// whatever is reported after that.
pub open spec fn broken_stream_events<R>(
    delivered: Seq<Seq<u8>>,
    later: Seq<EventView<R>>,
) -> Seq<EventView<R>> {
    chunk_events(delivered) + seq![EventView::TransportFailure] + later
}

/// When the body stream fails after any number of chunks, the caller gets
/// the refusal; the verifier is never asked about the truncated body and the
/// handler downstream is never invoked.
pub proof fn lemma_broken_stream_is_refused<R>(
    head: RequestHeadView,
    delivered: Seq<Seq<u8>>,
    later: Seq<EventView<R>>,
)
    ensures
        run(initial(head), broken_stream_events(delivered, later)) == (
            InterceptionView::Finished,
            pulls::<R>(delivered.len()) + seq![
                ActionView::Reject {
                    response: failure_response(),
                    reason: Reason::TransportReadFailure,
                },
            ] + ignores::<R>(later.len()),
        ),
        !asks_verifier(run(initial(head), broken_stream_events(delivered, later)).1),
        !calls_downstream(run(initial(head), broken_stream_events(delivered, later)).1),
{
    let drained = InterceptionView::Draining { head, buffered: delivered.flatten() };
    let failure = EventView::<R>::TransportFailure;
    lemma_drain::<R>(head, delivered);
    lemma_run_one(drained, failure);
    lemma_run_concat(initial(head), chunk_events::<R>(delivered), seq![failure]);
    lemma_finished_is_final(later);
    lemma_run_concat(initial(head), chunk_events::<R>(delivered) + seq![failure], later);
}

/// Appending an action adds a downstream call, a refusal or a question to the
/// verifier to the trace exactly when the action is one.
pub proof fn lemma_trace_push<R>(actions: Seq<ActionView<R>>, action: ActionView<R>)
    ensures
        calls_downstream(actions.push(action)) == (calls_downstream(actions)
            || action is CallDownstream),
        refuses(actions.push(action)) == (refuses(actions) || action is Reject),
        asks_verifier(actions.push(action)) == (asks_verifier(actions) || action is Verify),
{
    let longer = actions.push(action);
    if calls_downstream(actions) {
        let i = choose|i: int| 0 <= i < actions.len() && (#[trigger] actions[i]) is CallDownstream;
        assert(longer[i] is CallDownstream);
    }
    if refuses(actions) {
        let i = choose|i: int| 0 <= i < actions.len() && (#[trigger] actions[i]) is Reject;
        assert(longer[i] is Reject);
    }
    if asks_verifier(actions) {
        let i = choose|i: int| 0 <= i < actions.len() && (#[trigger] actions[i]) is Verify;
        assert(longer[i] is Verify);
    }
    if action is CallDownstream || action is Reject || action is Verify {
        assert(longer[actions.len() as int] == action);
    }
    if calls_downstream(longer) {
        let i = choose|i: int| 0 <= i < longer.len() && (#[trigger] longer[i]) is CallDownstream;
        if i < actions.len() {
            assert(actions[i] is CallDownstream);
        }
    }
    if refuses(longer) {
        let i = choose|i: int| 0 <= i < longer.len() && (#[trigger] longer[i]) is Reject;
        if i < actions.len() {
            assert(actions[i] is Reject);
        }
    }
    if asks_verifier(longer) {
        let i = choose|i: int| 0 <= i < longer.len() && (#[trigger] longer[i]) is Verify;
        if i < actions.len() {
            assert(actions[i] is Verify);
        }
    }
}

/// What holds of a trace in each state: nothing is decided while the body is
/// read; the verifier has been asked once the body is whole; downstream has
/// been called, and nothing refused, while the handler works; and at the end
/// the request was either refused or forwarded, never both.
pub open spec fn consistent<R>(state: InterceptionView, actions: Seq<ActionView<R>>) -> bool {
    match state {
        InterceptionView::Draining { .. } => !calls_downstream(actions) && !refuses(actions)
            && !asks_verifier(actions),
        InterceptionView::Verifying { .. } => !calls_downstream(actions) && !refuses(actions)
            && asks_verifier(actions),
        InterceptionView::Forwarding => calls_downstream(actions) && !refuses(actions)
            && asks_verifier(actions),
        InterceptionView::Finished => calls_downstream(actions) != refuses(actions) && (
        calls_downstream(actions) ==> asks_verifier(actions)),
    }
}

/// Whatever is reported, in whatever order: an interception that answers
/// with the refusal never invokes the handler downstream, and one that
/// invokes it has asked the verifier first.
pub proof fn lemma_refusal_excludes_downstream<R>(
    head: RequestHeadView,
    events: Seq<EventView<R>>,
)
    ensures
        consistent(run(initial(head), events).0, run(initial(head), events).1),
        refuses(run(initial(head), events).1) ==> !calls_downstream(
            run(initial(head), events).1,
        ),
        calls_downstream(run(initial(head), events).1) ==> asks_verifier(
            run(initial(head), events).1,
        ),
    decreases events.len(),
{
    if events.len() == 0 {
    } else {
        lemma_refusal_excludes_downstream(head, events.drop_last());
        let earlier = run(initial(head), events.drop_last());
        let last = step_model(earlier.0, events.last());
        lemma_trace_push(earlier.1, last.1);
    }
}

/// The same request, reported on in the same way, is decided in the same
/// way: the machine keeps no state but the one that it is handed.
pub proof fn lemma_same_request_same_outcome<R>(
    first: InterceptionView,
    second: InterceptionView,
    first_events: Seq<EventView<R>>,
    second_events: Seq<EventView<R>>,
)
    requires
        first == second,
        first_events == second_events,
    ensures
        run(first, first_events) == run(second, second_events),
{
}

/// Many interceptions side by side: each with its state and its trace.
pub open spec fn started<R>(starts: Seq<InterceptionView>) -> Seq<
    (InterceptionView, Seq<ActionView<R>>),
> {
    Seq::new(starts.len(), |i: int| (starts[i], Seq::<ActionView<R>>::empty()))
}

/// Hands one event to one of the interceptions. An event for a request that
/// does not exist is dropped.
pub open spec fn deliver<R>(
    system: Seq<(InterceptionView, Seq<ActionView<R>>)>,
    to: int,
    event: EventView<R>,
) -> Seq<(InterceptionView, Seq<ActionView<R>>)> {
    if 0 <= to < system.len() {
        let next = step_model(system[to].0, event);
        system.update(to, (next.0, system[to].1.push(next.1)))
    } else {
        system
    }
}

/// Runs a schedule: events for any of the requests, in the order in which
/// they happen to arrive.
pub open spec fn run_all<R>(
    starts: Seq<InterceptionView>,
    schedule: Seq<(int, EventView<R>)>,
) -> Seq<(InterceptionView, Seq<ActionView<R>>)>
    decreases schedule.len(),
{
    if schedule.len() == 0 {
        started(starts)
    } else {
        deliver(run_all(starts, schedule.drop_last()), schedule.last().0, schedule.last().1)
    }
}

/// The events of a schedule that are meant for one request, in order.
pub open spec fn events_for<R>(schedule: Seq<(int, EventView<R>)>, request: int) -> Seq<
    EventView<R>,
>
    decreases schedule.len(),
{
    if schedule.len() == 0 {
        Seq::empty()
    } else if schedule.last().0 == request {
        events_for(schedule.drop_last(), request).push(schedule.last().1)
    } else {
        events_for(schedule.drop_last(), request)
    }
}

/// Concurrent requests do not interfere: however their events interleave,
/// each request ends in the state, and with the actions, that it would have
/// had alone.
pub proof fn lemma_requests_do_not_interfere<R>(
    starts: Seq<InterceptionView>,
    schedule: Seq<(int, EventView<R>)>,
    request: int,
)
    requires
        0 <= request < starts.len(),
    ensures
        run_all(starts, schedule).len() == starts.len(),
        run_all(starts, schedule)[request] == run(
            starts[request],
            events_for(schedule, request),
        ),
    decreases schedule.len(),
{
    if schedule.len() == 0 {
    } else {
        lemma_requests_do_not_interfere(starts, schedule.drop_last(), request);
        let events = events_for(schedule, request);
        if schedule.last().0 == request {
            assert(events.drop_last() =~= events_for(schedule.drop_last(), request));
            assert(events.last() == schedule.last().1);
        }
    }
}

} // verus!
