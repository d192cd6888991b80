//! What holds of every run of the worker.
//!
//! A run is a sequence of events taken from some state; it leaves a state and a sequence of
//! actions, one for each event.

use vstd::prelude::*;
use crate::generator::{can_encode, outcome_of, too_big_message};
use crate::request::RequestView;
use crate::worker::{in_turn, next, pending_action, ActionView, EventView, StateView};

verus! {

/// The state that a run of `events` from `state` ends in, and the actions it gives.
pub open spec fn run(state: StateView, events: Seq<EventView>) -> (StateView, Seq<ActionView>)
    decreases events.len(),
{
    if events.len() == 0 {
        (state, Seq::empty())
    } else {
        let (before, actions) = run(state, events.drop_last());
        let (after, action) = next(before, events.last());
        (after, actions.push(action))
    }
}

/// The state that a run from `state` is in before it takes the event at position `at`.
pub open spec fn state_before(state: StateView, events: Seq<EventView>, at: int) -> StateView {
    run(state, events.take(at)).0
}

/// The events of receiving `requests` one after the other.
pub open spec fn received(requests: Seq<RequestView>) -> Seq<EventView> {
    Seq::new(requests.len(), |i: int| EventView::Received(requests[i]))
}

/// `request` was received at position `at`, and nothing was received from there to position
/// `before`.
pub open spec fn is_latest_received(
    events: Seq<EventView>,
    request: RequestView,
    at: int,
    before: int,
) -> bool {
    &&& 0 <= at < before <= events.len()
    &&& events[at] == EventView::Received(request)
    &&& forall|k: int| at < k < before ==> !(#[trigger] events[k] is Received)
}

/// `count` times the action of polling.
pub open spec fn polls(count: nat) -> Seq<ActionView> {
    Seq::new(count, |i: int| ActionView::Poll)
}

/// What the caller reports of `action` once every sender is gone, while `queue` is what the
/// channel still holds: a receive takes the first queued request, or finds the channel
/// disconnected when none is left, and a delivery is reported as it went. With the event comes
/// what the channel holds afterwards.
pub open spec fn report_after_shutdown(
    action: ActionView,
    queue: Seq<RequestView>,
    accepted: bool,
) -> (EventView, Seq<RequestView>) {
    match action {
        ActionView::Deliver(_) | ActionView::AwaitDelivery => (
            EventView::Delivered { accepted },
            queue,
        ),
        _ => if queue.len() > 0 {
            (EventView::Received(queue.first()), queue.drop_first())
        } else {
            (EventView::Disconnected, queue)
        },
    }
}

/// The state of a worker after it has been given `steps` reports of its own actions, from
/// `state` and `action`, once every sender is gone.
pub open spec fn state_after_shutdown(
    state: StateView,
    action: ActionView,
    queue: Seq<RequestView>,
    accepted: bool,
    steps: nat,
) -> StateView
    decreases steps,
{
    if steps == 0 {
        state
    } else {
        let (event, left) = report_after_shutdown(action, queue, accepted);
        let (after, following) = next(state, event);
        state_after_shutdown(after, following, left, accepted, (steps - 1) as nat)
    }
}

/// A run gives one action for each event.
pub proof fn lemma_run_len(state: StateView, events: Seq<EventView>)
    ensures
        run(state, events).1.len() == events.len(),
    decreases events.len(),
{
    if events.len() > 0 {
        lemma_run_len(state, events.drop_last());
    }
}

/// The action at a position of a run is the one decided in the state before it, on the event
/// at that position, and the state after it is the one decided there.
pub proof fn lemma_run_at(state: StateView, events: Seq<EventView>, at: int)
    requires
        0 <= at < events.len(),
    ensures
        run(state, events).1.len() == events.len(),
        run(state, events).1[at] == next(state_before(state, events, at), events[at]).1,
        state_before(state, events, at + 1) == next(
            state_before(state, events, at),
            events[at],
        ).0,
    decreases events.len(),
{
    lemma_run_len(state, events);
    let shorter = events.drop_last();
    lemma_run_len(state, shorter);
    assert(events.take(at + 1).drop_last() == events.take(at));
    assert(events.take(at + 1).last() == events[at]);
    if at == events.len() - 1 {
        assert(events.take(at) == shorter);
    } else {
        lemma_run_at(state, shorter, at);
        assert(shorter.take(at) == events.take(at));
    }
}

/// When one or more requests are received back to back and the queue is then found empty, the
/// worker polls after each request and delivers once: the outcome of the last request. No
/// earlier request gives rise to a delivery.
pub proof fn lemma_latest_request_wins(requests: Seq<RequestView>)
    requires
        requests.len() >= 1,
    ensures
        run(StateView::Idle, received(requests).push(EventView::QueueEmpty)) == (
            StateView::Rendering,
            polls(requests.len()).push(ActionView::Deliver(outcome_of(requests.last()))),
        ),
{
    lemma_drain_keeps_latest(requests);
    let events = received(requests).push(EventView::QueueEmpty);
    assert(events.drop_last() == received(requests));
}

/// While requests are received back to back, the worker holds the last of them and has
/// delivered nothing.
pub proof fn lemma_drain_keeps_latest(requests: Seq<RequestView>)
    requires
        requests.len() >= 1,
    ensures
        run(StateView::Idle, received(requests)) == (
            StateView::Draining { candidate: requests.last() },
            polls(requests.len()),
        ),
    decreases requests.len(),
{
    let events = received(requests);
    assert(events.drop_last() == received(requests.drop_last()));
    if requests.len() == 1 {
        assert(run(StateView::Idle, events.drop_last()) == (
            StateView::Idle,
            Seq::<ActionView>::empty(),
        ));
        assert(polls(0).push(ActionView::Poll) == polls(1));
    } else {
        lemma_drain_keeps_latest(requests.drop_last());
        assert(polls((requests.len() - 1) as nat).push(ActionView::Poll) == polls(requests.len()));
    }
}

/// Whatever a fresh worker is given, each of its deliveries is the outcome of the request that
/// was received last before it. The result names that request and its position.
pub proof fn lemma_delivery_is_of_latest_request(events: Seq<EventView>, at: int) -> (found: (
    int,
    RequestView,
))
    requires
        0 <= at < events.len(),
        run(StateView::Idle, events).1[at] is Deliver,
    ensures
        is_latest_received(events, found.1, found.0, at),
        run(StateView::Idle, events).1[at] == ActionView::Deliver(outcome_of(found.1)),
{
    lemma_run_at(StateView::Idle, events, at);
    let position = lemma_candidate_is_latest_received(events, at);
    (position, state_before(StateView::Idle, events, at)->candidate)
}

/// While a fresh worker drains, its candidate is the request that was received last. The
/// result is the position at which it was received.
pub proof fn lemma_candidate_is_latest_received(events: Seq<EventView>, at: int) -> (found: int)
    requires
        0 <= at <= events.len(),
        state_before(StateView::Idle, events, at) is Draining,
    ensures
        is_latest_received(
            events,
            state_before(StateView::Idle, events, at)->candidate,
            found,
            at,
        ),
    decreases at,
{
    if at == 0 {
        assert(events.take(0) == Seq::<EventView>::empty());
        0
    } else {
        lemma_run_at(StateView::Idle, events, at - 1);
        if events[at - 1] is Received {
            at - 1
        } else {
            lemma_candidate_is_latest_received(events, at - 1)
        }
    }
}

/// At most one delivery is under way. Between two deliveries of a run, the first has been
/// reported: the worker hands out no second result while it waits for that report.
pub proof fn lemma_one_delivery_at_a_time(
    state: StateView,
    events: Seq<EventView>,
    first: int,
    second: int,
)
    requires
        0 <= first < second < events.len(),
        run(state, events).1[first] is Deliver,
        run(state, events).1[second] is Deliver,
    ensures
        exists|k: int| first < k < second && #[trigger] events[k] is Delivered,
{
    lemma_run_at(state, events, first);
    lemma_run_at(state, events, second);
    if !(exists|k: int| first < k < second && #[trigger] events[k] is Delivered) {
        lemma_rendering_lasts(state, events, first + 1, second);
    }
}

/// A worker that is rendering stays so until a delivery is reported.
proof fn lemma_rendering_lasts(state: StateView, events: Seq<EventView>, from: int, to: int)
    requires
        0 <= from <= to <= events.len(),
        state_before(state, events, from) is Rendering,
        forall|k: int| from <= k < to ==> !(#[trigger] events[k] is Delivered),
    ensures
        state_before(state, events, to) is Rendering,
    decreases to - from,
{
    if from < to {
        lemma_rendering_lasts(state, events, from, to - 1);
        lemma_run_at(state, events, to - 1);
        assert(!(events[to - 1] is Delivered));
    }
}

/// A delivery is decided only at the end of a drain, and it leaves the worker rendering.
pub proof fn lemma_delivery_ends_a_drain(state: StateView, event: EventView)
    requires
        next(state, event).1 is Deliver,
    ensures
        state is Draining,
        event is QueueEmpty || event is Disconnected,
        next(state, event).0 is Rendering,
        next(state, event).1 == ActionView::Deliver(outcome_of(state->candidate)),
{
}

/// Delivery failures are not propagated: whatever the callback reports, the worker returns to
/// idle and waits for the next request.
pub proof fn lemma_delivery_report_is_not_propagated(accepted: bool)
    ensures
        next(StateView::Rendering, EventView::Delivered { accepted }) == (
            StateView::Idle,
            ActionView::Receive,
        ),
{
}

/// A request that cannot be encoded is answered at the end of its drain with one delivery,
/// which carries the generator's message and no image.
pub proof fn lemma_refusal_is_delivered(request: RequestView)
    requires
        !can_encode(request),
    ensures
        next(StateView::Draining { candidate: request }, EventView::QueueEmpty) == (
            StateView::Rendering,
            ActionView::Deliver(Err(too_big_message())),
        ),
{
}

/// The worker stops exactly when a blocking receive finds every sender gone.
pub proof fn lemma_stops_on_disconnect_only(state: StateView, event: EventView)
    requires
        !(state is Stopped),
    ensures
        next(state, event).0 is Stopped <==> state is Idle && event is Disconnected,
{
}

/// A stopped worker stays stopped, and hands out nothing more.
pub proof fn lemma_stopped_is_final(events: Seq<EventView>)
    ensures
        run(StateView::Stopped, events).0 is Stopped,
        run(StateView::Stopped, events).1.len() == events.len(),
        forall|i: int| 0 <= i < events.len() ==> #[trigger] run(StateView::Stopped, events).1[i]
            is Stop,
    decreases events.len(),
{
    if events.len() > 0 {
        lemma_stopped_is_final(events.drop_last());
    }
}

/// An event out of turn changes nothing: the state stays, and the action it is waiting on is
/// given again.
pub proof fn lemma_out_of_turn_changes_nothing(state: StateView, event: EventView)
    requires
        !in_turn(state, event),
    ensures
        next(state, event) == (state, pending_action(state)),
{
}

/// Shutting down stops the worker. Once every sender is gone, a worker that is given the
/// report of each of its actions takes what is still queued and stops: after four reports more
/// than there are requests in the queue it has stopped, whatever state it was in and however
/// its deliveries went.
pub proof fn lemma_shutdown_stops_the_worker(
    state: StateView,
    queue: Seq<RequestView>,
    accepted: bool,
)
    ensures
        state_after_shutdown(state, pending_action(state), queue, accepted, queue.len() + 4)
            is Stopped,
{
    lemma_stops_within(state, queue, accepted, queue.len() + 4);
}

/// The number of reports after which a worker in `state` has stopped, once every sender is
/// gone and `queued` requests are left.
pub open spec fn reports_to_stop(state: StateView, queued: nat) -> nat {
    match state {
        StateView::Stopped => 0,
        StateView::Draining { .. } => queued + 3,
        StateView::Idle => if queued == 0 {
            1
        } else {
            queued + 3
        },
        StateView::Rendering => if queued == 0 {
            2
        } else {
            queued + 4
        },
    }
}

/// After shutdown a worker has stopped once it has been given `reports_to_stop` reports, and
/// it stays stopped.
pub proof fn lemma_stops_within(
    state: StateView,
    queue: Seq<RequestView>,
    accepted: bool,
    steps: nat,
)
    requires
        steps >= reports_to_stop(state, queue.len()),
    ensures
        state_after_shutdown(state, pending_action(state), queue, accepted, steps) is Stopped,
    decreases steps,
{
    if steps > 0 {
        let (event, left) = report_after_shutdown(pending_action(state), queue, accepted);
        let (after, following) = next(state, event);
        assert(following == pending_action(after) || following is Deliver);
        if following is Deliver {
            // The drain has ended on an empty queue: the delivery is reported, the next
            // receive finds the channel disconnected.
            assert(steps >= 3);
            let (reported, same) = report_after_shutdown(following, left, accepted);
            let (idle, receive) = next(after, reported);
            assert(state_after_shutdown(after, following, left, accepted, (steps - 1) as nat)
                == state_after_shutdown(idle, receive, same, accepted, (steps - 2) as nat));
            lemma_stops_within(idle, same, accepted, (steps - 2) as nat);
        } else {
            lemma_stops_within(after, left, accepted, (steps - 1) as nat);
        }
    }
}

} // verus!
