//! Releasing what a build VM used.
use vstd::prelude::*;
use crate::build::error::BuildError;
use crate::cow::LoopDevice;
use crate::flow::{is_run, lemma_first_steps, lemma_shorter_run, Step};
use crate::image::copy_text;

verus! {

/// What a build VM used and what has to be released after it. `H` is a handle to a loop device and
/// `T` a temporary directory that goes with the guard.
pub struct BuildResourceGuard<H, T> {
    pub loop_devices: Vec<LoopDevice<H>>,
    pub dm_name: Option<String>,
    pub cgroup_vm_id: Option<String>,
    pub temp_dir: Option<T>,
}

/// How far a release has come.
#[derive(Clone, Copy, PartialEq, Eq, Structural)]
pub enum ReleasePhase {
    Begin,
    OpenLoops,
    Detach,
    OpenMapper,
    RemoveSnapshot,
    RemoveCgroup,
    Finished,
}

/// What a release asks for.
pub enum ReleaseAction<H> {
    /// Open the control of the loop devices.
    OpenLoops,
    /// Detach a loop device.
    Detach { device: LoopDevice<H> },
    /// Open the control of the device mapper.
    OpenMapper,
    /// Remove a snapshot.
    RemoveSnapshot { name: String },
    /// Remove the control group of a VM.
    RemoveCgroup { id: String },
}

/// What happened to the last action of a release.
pub enum ReleaseEvent {
    Start,
    Done(Result<(), String>),
}

/// The answer of a release to an event.
pub type ReleaseStep<H> = Step<ReleaseAction<H>, (), BuildError>;

/// Workflow that releases what a build VM used.
pub struct ReleaseFlow<H> {
    /// The loop devices that are still to be detached.
    pub devices: Vec<LoopDevice<H>>,
    pub dm_name: Option<String>,
    pub cgroup: Option<String>,
    pub phase: ReleasePhase,
}

impl<H, T> BuildResourceGuard<H, T> {
    /// A guard over these resources.
    pub fn new(
        loop_devices: Vec<LoopDevice<H>>,
        dm_name: Option<String>,
        cgroup_vm_id: Option<String>,
        temp_dir: Option<T>,
    ) -> (r: BuildResourceGuard<H, T>)
        ensures
            r == (BuildResourceGuard { loop_devices, dm_name, cgroup_vm_id, temp_dir }),
    {
        BuildResourceGuard { loop_devices, dm_name, cgroup_vm_id, temp_dir }
    }

    /// Begins to release the resources. The temporary directory is handed back; it goes when its
    /// owner goes.
    pub fn release(self) -> (r: (ReleaseFlow<H>, Option<T>))
        ensures
            r.0 == (ReleaseFlow {
                devices: self.loop_devices,
                dm_name: self.dm_name,
                cgroup: self.cgroup_vm_id,
                phase: ReleasePhase::Begin,
            }),
            r.1 == self.temp_dir,
    {
        (
            ReleaseFlow {
                devices: self.loop_devices,
                dm_name: self.dm_name,
                cgroup: self.cgroup_vm_id,
                phase: ReleasePhase::Begin,
            },
            self.temp_dir,
        )
    }
}

impl<H> ReleaseFlow<H> {
    /// The workflow is over.
    pub open spec fn ends(pre: ReleaseFlow<H>, post: ReleaseFlow<H>, step: ReleaseStep<H>) -> bool {
        &&& post == ReleaseFlow { phase: ReleasePhase::Finished, ..pre }
        &&& step == ReleaseStep::<H>::Return(Ok(()))
    }

    /// The workflow goes on with the control group.
    pub open spec fn frees_group(
        pre: ReleaseFlow<H>,
        post: ReleaseFlow<H>,
        step: ReleaseStep<H>,
    ) -> bool {
        match pre.cgroup {
            Some(group) => {
                &&& post == ReleaseFlow { phase: ReleasePhase::RemoveCgroup, ..pre }
                &&& step matches Step::Do(ReleaseAction::RemoveCgroup { id }) && id@ == group@
            },
            None => Self::ends(pre, post, step),
        }
    }

    /// The workflow goes on with the next loop device, or with the snapshot if there is none left.
    pub open spec fn frees_devices(
        pre: ReleaseFlow<H>,
        post: ReleaseFlow<H>,
        step: ReleaseStep<H>,
    ) -> bool {
        if pre.devices@.len() > 0 {
            &&& post == ReleaseFlow { devices: post.devices, phase: ReleasePhase::Detach, ..pre }
            &&& post.devices@ == pre.devices@.drop_first()
            &&& step matches Step::Do(ReleaseAction::Detach { device }) && device == pre.devices@[0]
        } else if pre.dm_name is Some {
            &&& post == ReleaseFlow { phase: ReleasePhase::OpenMapper, ..pre }
            &&& step matches Step::Do(ReleaseAction::OpenMapper)
        } else {
            Self::frees_group(pre, post, step)
        }
    }

    /// How the workflow answers an event.
    pub open spec fn transition(
        pre: ReleaseFlow<H>,
        event: ReleaseEvent,
        post: ReleaseFlow<H>,
        step: ReleaseStep<H>,
    ) -> bool {
        match (pre.phase, event) {
            (ReleasePhase::Begin, ReleaseEvent::Start) => {
                &&& post == ReleaseFlow { phase: ReleasePhase::OpenLoops, ..pre }
                &&& step matches Step::Do(ReleaseAction::OpenLoops)
            },
            (ReleasePhase::OpenLoops, ReleaseEvent::Done(Err(_))) => Self::ends(pre, post, step),
            (ReleasePhase::OpenLoops, ReleaseEvent::Done(Ok(_))) => Self::frees_devices(
                pre,
                post,
                step,
            ),
            (ReleasePhase::Detach, ReleaseEvent::Done(_)) => Self::frees_devices(pre, post, step),
            (ReleasePhase::OpenMapper, ReleaseEvent::Done(Err(_))) => Self::ends(pre, post, step),
            (ReleasePhase::OpenMapper, ReleaseEvent::Done(Ok(_))) => match pre.dm_name {
                Some(snapshot) => {
                    &&& post == ReleaseFlow { phase: ReleasePhase::RemoveSnapshot, ..pre }
                    &&& step matches Step::Do(ReleaseAction::RemoveSnapshot { name }) && name@
                        == snapshot@
                },
                None => Self::frees_group(pre, post, step),
            },
            (ReleasePhase::RemoveSnapshot, ReleaseEvent::Done(_)) => Self::frees_group(
                pre,
                post,
                step,
            ),
            (ReleasePhase::RemoveCgroup, ReleaseEvent::Done(_)) => Self::ends(pre, post, step),
            _ => post == pre && step is Unexpected,
        }
    }

    fn end(&mut self) -> (r: ReleaseStep<H>)
        ensures
            Self::ends(*old(self), *final(self), r),
    {
        self.phase = ReleasePhase::Finished;
        Step::Return(Ok(()))
    }

    fn free_group(&mut self) -> (r: ReleaseStep<H>)
        ensures
            Self::frees_group(*old(self), *final(self), r),
    {
        match copy_text(&self.cgroup) {
            Some(id) => {
                self.phase = ReleasePhase::RemoveCgroup;
                Step::Do(ReleaseAction::RemoveCgroup { id })
            },
            None => self.end(),
        }
    }

    fn free_devices(&mut self) -> (r: ReleaseStep<H>)
        ensures
            Self::frees_devices(*old(self), *final(self), r),
    {
        if self.devices.len() > 0 {
            let ghost before = self.devices@;
            let device = self.devices.remove(0);
            assert(self.devices@ =~= before.drop_first());
            self.phase = ReleasePhase::Detach;
            Step::Do(ReleaseAction::Detach { device })
        } else {
            match &self.dm_name {
                Some(_) => {
                    self.phase = ReleasePhase::OpenMapper;
                    Step::Do(ReleaseAction::OpenMapper)
                },
                None => self.free_group(),
            }
        }
    }

    /// Takes the outcome of the last action and says what to do next. A resource that cannot be
    /// released does not keep the others from being released, but without a control of its kind
    /// the release is over.
    pub fn step(&mut self, event: ReleaseEvent) -> (r: ReleaseStep<H>)
        ensures
            Self::transition(*old(self), event, *final(self), r),
    {
        match (self.phase, event) {
            (ReleasePhase::Begin, ReleaseEvent::Start) => {
                self.phase = ReleasePhase::OpenLoops;
                Step::Do(ReleaseAction::OpenLoops)
            },
            (ReleasePhase::OpenLoops, ReleaseEvent::Done(Err(_))) => self.end(),
            (ReleasePhase::OpenLoops, ReleaseEvent::Done(Ok(_))) => self.free_devices(),
            (ReleasePhase::Detach, ReleaseEvent::Done(_)) => self.free_devices(),
            (ReleasePhase::OpenMapper, ReleaseEvent::Done(Err(_))) => self.end(),
            (ReleasePhase::OpenMapper, ReleaseEvent::Done(Ok(_))) => match copy_text(
                &self.dm_name,
            ) {
                Some(name) => {
                    self.phase = ReleasePhase::RemoveSnapshot;
                    Step::Do(ReleaseAction::RemoveSnapshot { name })
                },
                None => self.free_group(),
            },
            (ReleasePhase::RemoveSnapshot, ReleaseEvent::Done(_)) => self.free_group(),
            (ReleasePhase::RemoveCgroup, ReleaseEvent::Done(_)) => self.end(),
            _ => Step::Unexpected,
        }
    }
}

/// The steps of a release.
pub open spec fn release_next<H>() -> spec_fn(
    ReleaseFlow<H>,
    ReleaseEvent,
    ReleaseFlow<H>,
    ReleaseStep<H>,
) -> bool {
    |pre: ReleaseFlow<H>, event: ReleaseEvent, post: ReleaseFlow<H>, step: ReleaseStep<H>|
        ReleaseFlow::transition(pre, event, post, step)
}

/// A run of a release from its beginning.
pub open spec fn release_run<H>(
    states: Seq<ReleaseFlow<H>>,
    events: Seq<ReleaseEvent>,
    steps: Seq<ReleaseStep<H>>,
) -> bool {
    is_run(release_next(), states, events, steps) && states[0].phase == ReleasePhase::Begin
}

/// The loop devices that a run asks to detach, in the order in which it asks.
pub open spec fn detached<H>(steps: Seq<ReleaseStep<H>>) -> Seq<LoopDevice<H>>
    decreases steps.len(),
{
    if steps.len() == 0 {
        Seq::empty()
    } else {
        let before = detached(steps.drop_last());
        match steps.last() {
            Step::Do(ReleaseAction::Detach { device }) => before.push(device),
            _ => before,
        }
    }
}

/// The control of the loop devices could not be opened.
pub open spec fn loops_missing<H>(states: Seq<ReleaseFlow<H>>, events: Seq<ReleaseEvent>) -> bool {
    exists|i: int|
        0 <= i < events.len() && states[i].phase == ReleasePhase::OpenLoops && (
        #[trigger] events[i] matches ReleaseEvent::Done(Err(_)))
}

proof fn lemma_detached<H>(
    states: Seq<ReleaseFlow<H>>,
    events: Seq<ReleaseEvent>,
    steps: Seq<ReleaseStep<H>>,
)
    requires
        release_run(states, events, steps),
    ensures
        detached(steps) + states.last().devices@ == states[0].devices@,
        ({
            let phase = states.last().phase;
            phase == ReleasePhase::OpenMapper || phase == ReleasePhase::RemoveSnapshot || phase
                == ReleasePhase::RemoveCgroup ==> states.last().devices@.len() == 0
        }),
    decreases steps.len(),
{
    if steps.len() == 0 {
        assert(detached(steps) + states.last().devices@ =~= states[0].devices@);
    } else {
        lemma_shorter_run(release_next(), states, events, steps);
        lemma_detached(states.drop_last(), events.drop_last(), steps.drop_last());
        let pre = states.drop_last().last();
        let post = states.last();
        match steps.last() {
            Step::Do(ReleaseAction::Detach { device }) => {
                assert(pre.devices@ =~= seq![device] + post.devices@);
                assert(detached(steps) + post.devices@ =~= detached(steps.drop_last())
                    + pre.devices@);
            },
            _ => {
                assert(post.devices@ == pre.devices@);
            },
        }
    }
}

/// A release never fails.
pub proof fn release_never_fails<H>(
    pre: ReleaseFlow<H>,
    event: ReleaseEvent,
    post: ReleaseFlow<H>,
    step: ReleaseStep<H>,
)
    requires
        ReleaseFlow::transition(pre, event, post, step),
    ensures
        !(step matches Step::Return(Err(_))),
{
}

/// A release asks for each loop device at most once, in order, whatever happens. Once it is over
/// it has asked for all of them, unless the control of the loop devices could not be opened.
pub proof fn every_device_is_detached_in_order<H>(
    states: Seq<ReleaseFlow<H>>,
    events: Seq<ReleaseEvent>,
    steps: Seq<ReleaseStep<H>>,
)
    requires
        release_run(states, events, steps),
    ensures
        detached(steps).is_prefix_of(states[0].devices@),
        steps.len() > 0 && steps.last() is Return && !loops_missing(states, events) ==> detached(
            steps,
        ) == states[0].devices@,
{
    lemma_detached(states, events, steps);
    if steps.len() > 0 && steps.last() is Return && !loops_missing(states, events) {
        lemma_shorter_run(release_next(), states, events, steps);
        lemma_detached(states.drop_last(), events.drop_last(), steps.drop_last());
        let n = steps.len() - 1;
        assert(events[n] == events.last());
        assert(states.last().devices@.len() == 0);
        assert(detached(steps) =~= states[0].devices@);
    }
}

/// The control of the device mapper could not be opened.
pub open spec fn mapper_missing<H>(states: Seq<ReleaseFlow<H>>, events: Seq<ReleaseEvent>) -> bool {
    exists|i: int|
        0 <= i < events.len() && states[i].phase == ReleasePhase::OpenMapper && (
        #[trigger] events[i] matches ReleaseEvent::Done(Err(_)))
}

/// The answer removes this snapshot.
pub open spec fn removes_snapshot<H>(step: ReleaseStep<H>, snapshot: Seq<char>) -> bool {
    step matches Step::Do(ReleaseAction::RemoveSnapshot { name }) && name@ == snapshot
}

/// The answer removes this control group.
pub open spec fn removes_group<H>(step: ReleaseStep<H>, group: Seq<char>) -> bool {
    step matches Step::Do(ReleaseAction::RemoveCgroup { id }) && id@ == group
}

proof fn lemma_removed<H>(
    states: Seq<ReleaseFlow<H>>,
    events: Seq<ReleaseEvent>,
    steps: Seq<ReleaseStep<H>>,
)
    requires
        release_run(states, events, steps),
    ensures
        ({
            let flow = states.last();
            &&& flow.dm_name == states[0].dm_name
            &&& flow.cgroup == states[0].cgroup
            &&& flow.phase == ReleasePhase::RemoveSnapshot || flow.phase
                == ReleasePhase::RemoveCgroup ==> (states[0].dm_name matches Some(name) ==> exists|
                i: int,
            |
                0 <= i < steps.len() && removes_snapshot(#[trigger] steps[i], name@))
            &&& flow.phase == ReleasePhase::RemoveCgroup ==> (states[0].cgroup matches Some(id)
                ==> exists|i: int| 0 <= i < steps.len() && removes_group(#[trigger] steps[i], id@))
        }),
    decreases steps.len(),
{
    if steps.len() > 0 {
        lemma_shorter_run(release_next(), states, events, steps);
        let t = steps.drop_last();
        let n = steps.len() - 1;
        let pre = states.drop_last().last();
        let flow = states.last();
        lemma_removed(states.drop_last(), events.drop_last(), t);
        match states[0].dm_name {
            Some(name) => {
                if pre.phase == ReleasePhase::RemoveSnapshot || pre.phase
                    == ReleasePhase::RemoveCgroup {
                    let i = choose|i: int|
                        0 <= i < t.len() && removes_snapshot(#[trigger] t[i], name@);
                    assert(removes_snapshot(steps[i], name@));
                } else if flow.phase == ReleasePhase::RemoveSnapshot {
                    assert(removes_snapshot(steps[n], name@));
                }
            },
            None => {},
        }
        match states[0].cgroup {
            Some(id) => {
                if pre.phase == ReleasePhase::RemoveCgroup {
                    let i = choose|i: int| 0 <= i < t.len() && removes_group(#[trigger] t[i], id@);
                    assert(removes_group(steps[i], id@));
                } else if flow.phase == ReleasePhase::RemoveCgroup {
                    assert(removes_group(steps[n], id@));
                }
            },
            None => {},
        }
    }
}

/// Once a release is over it has asked to remove the snapshot and the control group that it was
/// given, unless a control could not be opened.
pub proof fn every_resource_is_released<H>(
    states: Seq<ReleaseFlow<H>>,
    events: Seq<ReleaseEvent>,
    steps: Seq<ReleaseStep<H>>,
)
    requires
        release_run(states, events, steps),
        steps.len() > 0,
        steps.last() is Return,
        !loops_missing(states, events),
        !mapper_missing(states, events),
    ensures
        states[0].dm_name matches Some(name) ==> exists|i: int|
            0 <= i < steps.len() && removes_snapshot(#[trigger] steps[i], name@),
        states[0].cgroup matches Some(id) ==> exists|i: int|
            0 <= i < steps.len() && removes_group(#[trigger] steps[i], id@),
{
    lemma_shorter_run(release_next(), states, events, steps);
    let t = steps.drop_last();
    lemma_removed(states.drop_last(), events.drop_last(), t);
    assert(events[steps.len() - 1] == events.last());
    match states[0].dm_name {
        Some(name) => {
            let i = choose|i: int| 0 <= i < t.len() && removes_snapshot(#[trigger] t[i], name@);
            assert(removes_snapshot(steps[i], name@));
        },
        None => {},
    }
    match states[0].cgroup {
        Some(id) => {
            let i = choose|i: int| 0 <= i < t.len() && removes_group(#[trigger] t[i], id@);
            assert(removes_group(steps[i], id@));
        },
        None => {},
    }
}

/// The answer detaches a loop device.
pub open spec fn detaches<H>(step: ReleaseStep<H>) -> bool {
    step matches Step::Do(ReleaseAction::Detach { .. })
}

/// The answer removes a snapshot.
pub open spec fn removes_any_snapshot<H>(step: ReleaseStep<H>) -> bool {
    step matches Step::Do(ReleaseAction::RemoveSnapshot { .. })
}

/// The answer removes a control group.
pub open spec fn removes_any_group<H>(step: ReleaseStep<H>) -> bool {
    step matches Step::Do(ReleaseAction::RemoveCgroup { .. })
}

/// How far along a phase is.
spec fn rank(phase: ReleasePhase) -> int {
    match phase {
        ReleasePhase::Begin => 0,
        ReleasePhase::OpenLoops => 1,
        ReleasePhase::Detach => 2,
        ReleasePhase::OpenMapper => 3,
        ReleasePhase::RemoveSnapshot => 4,
        ReleasePhase::RemoveCgroup => 5,
        ReleasePhase::Finished => 6,
    }
}

proof fn lemma_rank<H>(
    states: Seq<ReleaseFlow<H>>,
    events: Seq<ReleaseEvent>,
    steps: Seq<ReleaseStep<H>>,
    i: int,
    j: int,
)
    requires
        is_run(release_next(), states, events, steps),
        0 <= i <= j <= steps.len(),
    ensures
        rank(states[i].phase) <= rank(states[j].phase),
    decreases j - i,
{
    if i < j {
        lemma_rank(states, events, steps, i, j - 1);
        lemma_first_steps(release_next(), states, events, steps, j - 1);
    }
}

/// A release goes kind by kind. When it asks to remove the snapshot, it has asked to detach every
/// loop device, and asks for no other after that. When it asks to remove the control group, it has
/// asked to remove the snapshot as well, if there is one, and asks for neither after that.
pub proof fn resources_are_released_in_order<H>(
    states: Seq<ReleaseFlow<H>>,
    events: Seq<ReleaseEvent>,
    steps: Seq<ReleaseStep<H>>,
    at: int,
)
    requires
        release_run(states, events, steps),
        0 <= at < steps.len(),
        removes_any_snapshot(steps[at]) || removes_any_group(steps[at]),
    ensures
        detached(steps.take(at)) == states[0].devices@,
        forall|j: int| at <= j < steps.len() ==> !detaches(#[trigger] steps[j]),
        removes_any_group(steps[at]) ==> (states[0].dm_name matches Some(name) ==> exists|i: int|
            0 <= i < at && removes_snapshot(#[trigger] steps[i], name@)),
        removes_any_group(steps[at]) ==> forall|j: int|
            at <= j < steps.len() ==> !removes_any_snapshot(#[trigger] steps[j]),
{
    let s = states.take(at + 1);
    let e = events.take(at);
    let t = steps.take(at);
    lemma_first_steps(release_next(), states, events, steps, at);
    lemma_detached(s, e, t);
    lemma_removed(s, e, t);
    assert(states[at].devices@.len() == 0);
    assert(detached(t) =~= states[0].devices@);
    if removes_any_group(steps[at]) {
        match states[0].dm_name {
            Some(name) => {
                let i = choose|i: int| 0 <= i < t.len() && removes_snapshot(#[trigger] t[i], name@);
                assert(removes_snapshot(steps[i], name@));
            },
            None => {},
        }
    }
    assert forall|j: int| at <= j < steps.len() implies !detaches(#[trigger] steps[j]) && (
    removes_any_group(steps[at]) ==> !removes_any_snapshot(steps[j])) by {
        if j > at {
            lemma_rank(states, events, steps, at + 1, j);
            lemma_first_steps(release_next(), states, events, steps, j);
        }
    }
}

} // verus!
