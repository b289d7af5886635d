//! The answer of a workflow to an event.
use vstd::prelude::*;

verus! {

/// What a workflow asks for next.
///
/// A workflow is a state machine. Its caller performs the action that it asks for and hands the
/// outcome back as the next event, until the workflow returns.
pub enum Step<A, T, E> {
    /// Perform this action and report its outcome.
    Do(A),
    /// The workflow is over with this result.
    Return(Result<T, E>),
    /// The event does not answer the last action. Nothing has changed.
    Unexpected,
}

/// A run of a workflow: its states, the events that it took and its answers. Each step is one that
/// `next` allows from a state, on an event, to a state, with an answer.
pub open spec fn is_run<S, E, R>(
    next: spec_fn(S, E, S, R) -> bool,
    states: Seq<S>,
    events: Seq<E>,
    steps: Seq<R>,
) -> bool {
    &&& states.len() == steps.len() + 1
    &&& events.len() == steps.len()
    &&& forall|i: int|
        0 <= i < steps.len() ==> next(states[i], #[trigger] events[i], states[i + 1], steps[i])
}

/// A run without its last step is a run.
pub proof fn lemma_shorter_run<S, E, R>(
    next: spec_fn(S, E, S, R) -> bool,
    states: Seq<S>,
    events: Seq<E>,
    steps: Seq<R>,
)
    requires
        is_run(next, states, events, steps),
        steps.len() > 0,
    ensures
        is_run(next, states.drop_last(), events.drop_last(), steps.drop_last()),
        states.drop_last()[0] == states[0],
        states.drop_last().last() == states[steps.len() - 1],
        next(states.drop_last().last(), events.last(), states.last(), steps.last()),
{
    let n = steps.len() - 1;
    assert(next(states[n], events[n], states[n + 1], steps[n]));
    let s = states.drop_last();
    let e = events.drop_last();
    let t = steps.drop_last();
    assert forall|i: int| 0 <= i < n implies next(s[i], #[trigger] e[i], s[i + 1], t[i]) by {
        assert(events[i] == e[i]);
    }
}

/// The first steps of a run are a run.
pub proof fn lemma_first_steps<S, E, R>(
    next: spec_fn(S, E, S, R) -> bool,
    states: Seq<S>,
    events: Seq<E>,
    steps: Seq<R>,
    n: int,
)
    requires
        is_run(next, states, events, steps),
        0 <= n <= steps.len(),
    ensures
        is_run(next, states.take(n + 1), events.take(n), steps.take(n)),
        states.take(n + 1)[0] == states[0],
        states.take(n + 1).last() == states[n],
        n < steps.len() ==> next(states[n], events[n], states[n + 1], steps[n]),
{
    let s = states.take(n + 1);
    let e = events.take(n);
    let t = steps.take(n);
    assert forall|i: int| 0 <= i < n implies next(s[i], #[trigger] e[i], s[i + 1], t[i]) by {
        assert(events[i] == e[i]);
    }
    if n < steps.len() {
        assert(next(states[n], events[n], states[n + 1], steps[n]));
    }
}

} // verus!
