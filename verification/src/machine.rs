//! Runs of a step function. Each part of the service that waits on the
//! outside world is written as a function from a state and an event to
//! the next state and an action; what such a function does over a whole
//! sequence of events is stated and proved here once.

use vstd::prelude::*;

verus! {

/// The actions that `step` answers with, one per event, when it starts in
/// `state` and the events arrive in this order.
pub open spec fn run<S, E, A>(step: spec_fn(S, E) -> (S, A), state: S, events: Seq<E>) -> Seq<A>
    decreases events.len(),
{
    if events.len() == 0 {
        Seq::empty()
    } else {
        let next = step(state, events[0]);
        seq![next.1] + run(step, next.0, events.drop_first())
    }
}

/// The state in which the event at position `i` is taken; for `i` the
/// number of events, the state after all of them.
pub open spec fn state_at<S, E, A>(step: spec_fn(S, E) -> (S, A), state: S, events: Seq<E>, i: int) -> S
    decreases i,
{
    if i <= 0 {
        state
    } else {
        step(state_at(step, state, events, i - 1), events[i - 1]).0
    }
}

/// The state in which the rest of a run takes its event at position `i`
/// is the state in which the whole run takes the one after.
proof fn lemma_state_at_shift<S, E, A>(step: spec_fn(S, E) -> (S, A), state: S, events: Seq<E>, i: int)
    requires
        0 <= i < events.len(),
    ensures
        state_at(step, step(state, events[0]).0, events.drop_first(), i) == state_at(
            step,
            state,
            events,
            i + 1,
        ),
    decreases i,
{
    let first = step(state, events[0]).0;
    let rest = events.drop_first();
    if i > 0 {
        lemma_state_at_shift(step, state, events, i - 1);
        assert(rest[i - 1] == events[i]);
        assert(state_at(step, first, rest, i) == step(
            state_at(step, first, rest, i - 1),
            rest[i - 1],
        ).0);
        assert(state_at(step, state, events, i + 1) == step(
            state_at(step, state, events, i),
            events[i],
        ).0);
    } else {
        assert(state_at(step, state, events, 0) == state);
        assert(state_at(step, state, events, 1) == step(
            state_at(step, state, events, 0),
            events[0],
        ).0);
    }
}

/// A run answers every event with one action.
pub proof fn lemma_run_len<S, E, A>(step: spec_fn(S, E) -> (S, A), state: S, events: Seq<E>)
    ensures
        run(step, state, events).len() == events.len(),
    decreases events.len(),
{
    if events.len() > 0 {
        lemma_run_len(step, step(state, events[0]).0, events.drop_first());
    }
}

/// The action at position `i` of a run is the one that `step` gives for
/// the event at that position in the state that the events before have
/// led to.
pub proof fn lemma_run_at<S, E, A>(step: spec_fn(S, E) -> (S, A), state: S, events: Seq<E>, i: int)
    requires
        0 <= i < events.len(),
    ensures
        run(step, state, events).len() == events.len(),
        run(step, state, events)[i] == step(state_at(step, state, events, i), events[i]).1,
    decreases events.len(),
{
    let next = step(state, events[0]);
    let rest = events.drop_first();
    lemma_run_len(step, next.0, rest);
    if i > 0 {
        lemma_run_at(step, next.0, rest, i - 1);
        lemma_state_at_shift(step, state, events, i - 1);
        assert(rest[i - 1] == events[i]);
    }
}

} // verus!
