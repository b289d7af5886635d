//! What releasing the resources of a build VM does.
use vstd::prelude::*;
use crate::build::guard::{
    release_next, release_run, ReleaseAction, ReleaseEvent, ReleaseFlow, ReleasePhase, ReleaseStep,
};
use crate::flow::{lemma_first_steps, Step};
use crate::image::text_view;

verus! {

/// A release that is told to begin and whose controls can be opened: every other outcome may be an
/// error.
pub open spec fn controls_open(events: Seq<ReleaseEvent>, devices: int, snapshot: bool) -> bool {
    &&& events.len() > 1
    &&& events[0] == ReleaseEvent::Start
    &&& forall|i: int| 0 < i < events.len() ==> #[trigger] events[i] is Done
    &&& events[1] matches ReleaseEvent::Done(Ok(_))
    &&& snapshot && events.len() > devices + 2 ==> (
    events[devices + 2] matches ReleaseEvent::Done(Ok(_)))
}

proof fn lemma_devices<H>(
    states: Seq<ReleaseFlow<H>>,
    events: Seq<ReleaseEvent>,
    steps: Seq<ReleaseStep<H>>,
    i: int,
)
    requires
        release_run(states, events, steps),
        controls_open(events, states[0].devices@.len() as int, states[0].dm_name is Some),
        0 <= i <= states[0].devices@.len(),
        i + 1 <= steps.len(),
    ensures
        states[i + 1].devices@ == states[0].devices@.skip(i),
        states[i + 1].dm_name == states[0].dm_name,
        states[i + 1].cgroup == states[0].cgroup,
        i == 0 ==> states[1].phase == ReleasePhase::OpenLoops && (steps[0] matches Step::Do(
            ReleaseAction::OpenLoops,
        )),
        i > 0 ==> states[i + 1].phase == ReleasePhase::Detach && (steps[i] matches Step::Do(
            ReleaseAction::Detach { device },
        ) && device == states[0].devices@[i - 1]),
    decreases i,
{
    lemma_first_steps(release_next(), states, events, steps, i);
    if i == 0 {
        assert(states[0].devices@.skip(0) =~= states[0].devices@);
    } else {
        lemma_devices(states, events, steps, i - 1);
        let before = states[0].devices@.skip(i - 1);
        assert(events[i] is Done);
        assert(before[0] == states[0].devices@[i - 1]);
        assert(before.drop_first() =~= states[0].devices@.skip(i));
    }
}

/// A release opens the control of the loop devices and asks for each device in turn, whatever comes of
/// the one before. Then, if there is a snapshot, it opens the control of the device mapper and removes
/// the snapshot; then, if there is a control group, it removes that; and then it is over.
pub proof fn release_takes_everything_down<H>(
    states: Seq<ReleaseFlow<H>>,
    events: Seq<ReleaseEvent>,
    steps: Seq<ReleaseStep<H>>,
    at: int,
)
    requires
        release_run(states, events, steps),
        controls_open(events, states[0].devices@.len() as int, states[0].dm_name is Some),
        0 <= at < steps.len(),
    ensures
        ({
            let d = states[0].devices@.len() as int;
            let s: int = if states[0].dm_name is Some {
                2
            } else {
                0
            };
            let g: int = if states[0].cgroup is Some {
                1
            } else {
                0
            };
            &&& at == 0 ==> (steps[at] matches Step::Do(ReleaseAction::OpenLoops))
            &&& 0 < at <= d ==> (steps[at] matches Step::Do(ReleaseAction::Detach { device })
                && device == states[0].devices@[at - 1])
            &&& s == 2 && at == d + 1 ==> (steps[at] matches Step::Do(ReleaseAction::OpenMapper))
            &&& s == 2 && at == d + 2 ==> (steps[at] matches Step::Do(
                ReleaseAction::RemoveSnapshot { name },
            ) && Some(name@) == text_view(states[0].dm_name))
            &&& g == 1 && at == d + s + 1 ==> (steps[at] matches Step::Do(
                ReleaseAction::RemoveCgroup { id },
            ) && Some(id@) == text_view(states[0].cgroup))
            &&& at == d + s + g + 1 ==> (steps[at] matches Step::Return(Ok(_)))
        }),
{
    let d = states[0].devices@.len() as int;
    if at <= d {
        lemma_devices(states, events, steps, at);
    } else {
        lemma_devices(states, events, steps, d);
        assert(states[d + 1].devices@.len() == 0);
        assert(events[d + 1] is Done);
        lemma_first_steps(release_next(), states, events, steps, d + 1);
        if at >= d + 2 {
            assert(events[d + 2] is Done);
            lemma_first_steps(release_next(), states, events, steps, d + 2);
        }
        if at >= d + 3 {
            assert(events[d + 3] is Done);
            lemma_first_steps(release_next(), states, events, steps, d + 3);
        }
        if at >= d + 4 {
            assert(events[d + 4] is Done);
            lemma_first_steps(release_next(), states, events, steps, d + 4);
        }
    }
}

/// Without a control of the loop devices nothing is released, and without one of the device mapper
/// neither the snapshot nor the control group is.
pub proof fn missing_control_ends_the_release<H>(
    states: Seq<ReleaseFlow<H>>,
    events: Seq<ReleaseEvent>,
    steps: Seq<ReleaseStep<H>>,
    at: int,
)
    requires
        release_run(states, events, steps),
        0 < at < steps.len(),
        (steps[at - 1] matches Step::Do(ReleaseAction::OpenLoops)) || (
        steps[at - 1] matches Step::Do(ReleaseAction::OpenMapper)),
        events[at] matches ReleaseEvent::Done(Err(_)),
    ensures
        steps[at] matches Step::Return(Ok(_)),
{
    lemma_first_steps(release_next(), states, events, steps, at - 1);
    lemma_first_steps(release_next(), states, events, steps, at);
}

} // verus!
