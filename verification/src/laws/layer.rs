//! What a `RUN` instruction does.
use vstd::prelude::*;
use crate::build::guard::ReleasePhase;
use crate::build::layer::{
    execute_next, run_next, ExecuteAction, ExecuteEvent, ExecuteFlow, ExecutePhase, ExecuteStep,
    RunAction, RunEvent, RunFlow, RunPhase, RunStep,
};
use crate::cow::LoopDevice;
use crate::flow::{is_run, Step};
use crate::image::text_view;
use crate::laws::ends::execution_error;
use crate::number::signed_decimal;
use crate::path::joined_path;

verus! {

/// A `RUN` instruction creates its directory, has the command run on the root file system that it was
/// given, moves the layer that the command leaves to the temporary directory, removes its own
/// directory, and returns where the layer is. A command that fails, or a layer that cannot be moved,
/// is an error, which is returned once the directory was removed.
pub proof fn run_keeps_the_layer_of_its_command(
    states: Seq<RunFlow>,
    events: Seq<RunEvent>,
    steps: Seq<RunStep>,
    layer: String,
    n: int,
)
    requires
        is_run(run_next(), states, events, steps),
        states[0].phase == RunPhase::Begin,
        0 <= n <= steps.len(),
        n <= 5,
        n > 0 ==> events[0] == RunEvent::Start,
        n > 1 ==> (events[1] matches RunEvent::Done(Ok(_))),
        n > 2 ==> events[2] == RunEvent::Executed(Ok(layer)),
        n > 3 ==> (events[3] matches RunEvent::Done(Ok(_))),
        n > 4 ==> events[4] is Done,
    ensures
        n > 0 ==> (steps[0] matches Step::Do(RunAction::CreateDir { path }) && path@
            == states[0].build_dir@),
        n > 1 ==> (steps[1] matches Step::Do(RunAction::Execute { rootfs, command, build_dir })
            && rootfs@ == states[0].rootfs@ && command@ == states[0].command@ && build_dir@
            == states[0].build_dir@),
        n > 2 ==> (steps[2] matches Step::Do(RunAction::Rename { from, to }) && from@ == layer@
            && exists|nanos: i64|
            nanos >= 0 && to@ == joined_path(
                states[0].temp_dir@,
                "layer_"@ + #[trigger] signed_decimal(nanos as int) + ".sqfs"@,
            )),
        n > 3 ==> (steps[3] matches Step::Do(RunAction::RemoveDir { path }) && path@
            == states[0].build_dir@),
        n > 4 ==> ((steps[2], steps[4]) matches (
            Step::Do(RunAction::Rename { to, .. }),
            Step::Return(Ok(path)),
        ) && path@ == to@),
        n == 1 < steps.len() ==> (events[1] matches RunEvent::Done(Err(e)) ==> execution_error(
            steps[1],
            "Failed to create build dir: "@ + e@,
        )),
        n == 2 < steps.len() ==> (events[2] matches RunEvent::Executed(Err(e)) ==> {
            &&& steps[2] matches Step::Do(RunAction::RemoveDir { path }) && path@
                == states[0].build_dir@
            &&& steps.len() > 3 && events[3] is Done ==> steps[3] == RunStep::Return(Err(e))
        }),
        n == 3 < steps.len() ==> (events[3] matches RunEvent::Done(Err(e)) ==> {
            &&& steps[3] matches Step::Do(RunAction::RemoveDir { path }) && path@
                == states[0].build_dir@
            &&& steps.len() > 4 && events[4] is Done ==> execution_error(
                steps[4],
                "Failed to preserve layer: "@ + e@,
            )
        }),
{
    if n > 2 {
        let nanos = choose|nanos: Option<i64>|
            (nanos matches Some(x) ==> x >= 0) && #[trigger] RunFlow::preserves_at(
                states[2],
                layer@,
                nanos,
                states[3],
                steps[2],
            );
        let shown: i64 = match nanos {
            Some(x) => x,
            None => 0,
        };
        assert(states[3].layer@ == joined_path(
            states[0].temp_dir@,
            "layer_"@ + signed_decimal(shown as int) + ".sqfs"@,
        ));
    }
}

/// The first `n` events of the execution of a command behind the creation of the copy-on-write file,
/// where nothing goes wrong up to the run of the VM.
pub open spec fn preparation_goes_well<H>(
    events: Seq<ExecuteEvent<H>>,
    from: int,
    base: LoopDevice<H>,
    cow: LoopDevice<H>,
    disk: String,
    n: int,
) -> bool {
    &&& n > 0 ==> (events[from] matches ExecuteEvent::Done(Ok(_)))
    &&& n > 1 ==> (events[from + 1] matches ExecuteEvent::Done(Ok(_)))
    &&& n > 2 ==> events[from + 2] == ExecuteEvent::Attached(Ok(base))
    &&& n > 3 ==> events[from + 3] == ExecuteEvent::Attached(Ok(cow))
    &&& n > 4 ==> (events[from + 4] matches ExecuteEvent::Done(Ok(_)))
    &&& n > 5 ==> events[from + 5] == ExecuteEvent::<H>::Snapshot(Ok(disk))
}

/// The first `from` events of the execution of a command provide the base as the file `ext4`: the
/// cache has it and it is there, or it is converted.
pub open spec fn base_is_ready<H>(
    cached: Option<String>,
    events: Seq<ExecuteEvent<H>>,
    from: int,
    ext4: Seq<char>,
) -> bool {
    &&& events[0] == ExecuteEvent::<H>::Start
    &&& match cached {
        None => from == 2 && (events[1] matches ExecuteEvent::Converted(Ok(path)) && path@ == ext4),
        Some(file) => {
            ||| from == 2 && events[1] == ExecuteEvent::<H>::Probed(true) && file@ == ext4
            ||| from == 3 && events[1] == ExecuteEvent::<H>::Probed(false) && (
            events[2] matches ExecuteEvent::Converted(Ok(path)) && path@ == ext4)
        },
    }
}

/// The base of a command is the file that the cache has for it, if that is still there. Otherwise the
/// squashfs that was given is converted, under its own path as the key.
pub proof fn base_comes_from_the_cache_or_is_converted<H>(
    states: Seq<ExecuteFlow<H>>,
    events: Seq<ExecuteEvent<H>>,
    steps: Seq<ExecuteStep<H>>,
)
    requires
        is_run(execute_next::<H>(), states, events, steps),
        states[0].phase == ExecutePhase::Begin,
        steps.len() >= 3,
        events[0] == ExecuteEvent::<H>::Start,
    ensures
        states[0].cached is None ==> {
            &&& steps[0] matches Step::Do(ExecuteAction::Convert { squashfs, key }) && squashfs@
                == states[0].base@ && key@ == states[0].base@
            &&& events[1] matches ExecuteEvent::Converted(Ok(path)) ==> states[2].ext4@ == path@ && (
            steps[1] matches Step::Do(ExecuteAction::CreateCow { .. }))
            &&& events[1] matches ExecuteEvent::Converted(Err(e)) ==> steps[1] == ExecuteStep::<
                H,
            >::Return(Err(e))
        },
        states[0].cached matches Some(file) ==> {
            &&& steps[0] matches Step::Do(ExecuteAction::Probe { path }) && path@ == file@
            &&& events[1] == ExecuteEvent::<H>::Probed(true) ==> states[2].ext4@ == file@ && (
            steps[1] matches Step::Do(ExecuteAction::CreateCow { .. }))
            &&& events[1] == ExecuteEvent::<H>::Probed(false) ==> {
                &&& steps[1] matches Step::Do(ExecuteAction::Convert { squashfs, key })
                    && squashfs@ == states[0].base@ && key@ == states[0].base@
                &&& events[2] matches ExecuteEvent::Converted(Ok(path)) ==> states[3].ext4@ == path@
                    && (steps[2] matches Step::Do(ExecuteAction::CreateCow { .. }))
                &&& events[2] matches ExecuteEvent::Converted(Err(e)) ==> steps[2] == ExecuteStep::<
                    H,
                >::Return(Err(e))
            }
        },
{
}

/// The base is what the command runs on, wherever it came from: a copy-on-write file of one gibibyte is
/// created in the directory of the run, the base and then that file are attached to loop devices, a
/// snapshot is made of the two, and the command runs in a VM on that. The first thing that goes wrong
/// ends the execution with an error that says so.
pub proof fn command_runs_on_a_snapshot_of_the_base<H>(
    states: Seq<ExecuteFlow<H>>,
    events: Seq<ExecuteEvent<H>>,
    steps: Seq<ExecuteStep<H>>,
    from: int,
    ext4: Seq<char>,
    base: LoopDevice<H>,
    cow: LoopDevice<H>,
    disk: String,
    n: int,
)
    requires
        is_run(execute_next::<H>(), states, events, steps),
        states[0].phase == ExecutePhase::Begin,
        0 <= n <= 6,
        n + from <= steps.len(),
        base_is_ready(states[0].cached, events, from, ext4),
        preparation_goes_well(events, from, base, cow, disk, n),
    ensures
        steps[from - 1] matches Step::Do(ExecuteAction::CreateCow { path, size_mb }) && path@
            == joined_path(states[0].build_dir@, "cow.img"@) && size_mb == 1024,
        n > 0 ==> (steps[from] matches Step::Do(ExecuteAction::OpenLoops)),
        n > 1 ==> (steps[from + 1] matches Step::Do(ExecuteAction::Attach { file }) && file@ == ext4),
        n > 2 ==> (steps[from + 2] matches Step::Do(ExecuteAction::Attach { file }) && file@
            == joined_path(states[0].build_dir@, "cow.img"@)),
        n > 3 ==> (steps[from + 3] matches Step::Do(ExecuteAction::OpenMapper)),
        n > 4 ==> (steps[from + 4] matches Step::Do(ExecuteAction::Snapshot { name, base: b, cow: c })
            && name@ == states[0].dm_name@ && b@ == base.path@ && c@ == cow.path@),
        n > 5 ==> (steps[from + 5] matches Step::Do(ExecuteAction::Run { disk: d, command, vm_dir, cgroup })
            && d@ == disk@ && command@ == states[0].command@ && vm_dir@ == states[0].build_dir@
            && text_view(cgroup) == (if states[0].limited {
            Some(states[0].dm_name@)
        } else {
            None
        })),
        n == 0 && steps.len() > from ==> (events[from] matches ExecuteEvent::Done(Err(e))
            ==> execution_error(steps[from], "Failed to create COW file: "@ + e@)),
        n == 1 && steps.len() > from + 1 ==> (events[from + 1] matches ExecuteEvent::Done(Err(e))
            ==> execution_error(steps[from + 1], "Failed to create loop manager: "@ + e@)),
        n == 2 && steps.len() > from + 2 ==> (events[from + 2] matches ExecuteEvent::Attached(Err(e))
            ==> execution_error(steps[from + 2], "Failed to attach base ext4: "@ + e@)),
        n == 3 && steps.len() > from + 3 ==> (events[from + 3] matches ExecuteEvent::Attached(Err(e))
            ==> execution_error(steps[from + 3], "Failed to attach COW: "@ + e@)),
        n == 4 && steps.len() > from + 4 ==> (events[from + 4] matches ExecuteEvent::Done(Err(e))
            ==> execution_error(steps[from + 4], "Failed to create DM manager: "@ + e@)),
        n == 5 && steps.len() > from + 5 ==> (events[from + 5] matches ExecuteEvent::Snapshot(Err(e))
            ==> execution_error(steps[from + 5], "Failed to create DM snapshot: "@ + e@)),
{
}

/// The answer releases these two devices, this snapshot and this control group.
pub open spec fn hands_back<H>(
    step: ExecuteStep<H>,
    base: LoopDevice<H>,
    cow: LoopDevice<H>,
    snapshot: Seq<char>,
    group: Option<Seq<char>>,
) -> bool {
    step matches Step::Do(ExecuteAction::Release { flow }) && flow.devices@ == seq![base, cow]
        && text_view(flow.dm_name) == Some(snapshot) && text_view(flow.cgroup) == group
        && flow.phase == ReleasePhase::Begin
}

/// A command that succeeds leaves a layer: if the mapped device is there, a squashfs of it is made in
/// the directory of the run, the devices are released, the copy-on-write file is removed, and that
/// squashfs is returned. A command that fails, a device that is missing and a layer that cannot be made
/// are errors, which are returned after the release; the copy-on-write file stays only where the layer
/// could not be made.
pub proof fn successful_command_leaves_a_layer<H>(
    states: Seq<ExecuteFlow<H>>,
    events: Seq<ExecuteEvent<H>>,
    steps: Seq<ExecuteStep<H>>,
    from: int,
    ext4: Seq<char>,
    base: LoopDevice<H>,
    cow: LoopDevice<H>,
    disk: String,
    n: int,
)
    requires
        is_run(execute_next::<H>(), states, events, steps),
        states[0].phase == ExecutePhase::Begin,
        0 <= n <= 5,
        n + from + 6 <= steps.len(),
        base_is_ready(states[0].cached, events, from, ext4),
        preparation_goes_well(events, from, base, cow, disk, 6),
        n > 0 ==> events[from + 6] == ExecuteEvent::<H>::Ran(Ok(0i32)),
        n > 1 ==> events[from + 7] == ExecuteEvent::<H>::Probed(true),
        n > 2 ==> (events[from + 8] matches ExecuteEvent::Layered(Ok(_))),
        n > 3 ==> events[from + 9] == ExecuteEvent::<H>::Released,
        n > 4 ==> events[from + 10] is Done,
    ensures
        ({
            let snapshot = states[0].dm_name@;
            let device = "/dev/mapper/"@ + snapshot;
            let layer = joined_path(states[0].build_dir@, "layer.sqfs"@);
            let file = joined_path(states[0].build_dir@, "cow.img"@);
            let group = if states[0].limited {
                Some(snapshot)
            } else {
                None
            };
            &&& n > 0 ==> (steps[from + 6] matches Step::Do(ExecuteAction::Probe { path }) && path@
                == device)
            &&& n > 1 ==> (steps[from + 7] matches Step::Do(
                ExecuteAction::MakeLayer { device: d, squashfs },
            ) && d@ == device && squashfs@ == layer)
            &&& n > 2 ==> hands_back(steps[from + 8], base, cow, snapshot, group)
            &&& n > 3 ==> (steps[from + 9] matches Step::Do(ExecuteAction::RemoveFile { path }) && path@
                == file)
            &&& n > 4 ==> (steps[from + 10] matches Step::Return(Ok(path)) && path@ == layer)
            &&& n == 0 && steps.len() > from + 8 ==> (events[from + 6] matches ExecuteEvent::Ran(Err(e)) ==> {
                &&& hands_back(steps[from + 6], base, cow, snapshot, group)
                &&& events[from + 7] == ExecuteEvent::<H>::Released ==> {
                    &&& steps[from + 7] matches Step::Do(ExecuteAction::RemoveFile { path }) && path@
                        == file
                    &&& events[from + 8] is Done ==> steps[from + 8] == ExecuteStep::<H>::Return(Err(e))
                }
            })
            &&& n == 0 && steps.len() > from + 8 ==> (
            events[from + 6] matches ExecuteEvent::Ran(Ok(code)) ==> (code != 0 ==> {
                &&& hands_back(steps[from + 6], base, cow, snapshot, group)
                &&& events[from + 7] == ExecuteEvent::<H>::Released ==> {
                    &&& steps[from + 7] matches Step::Do(ExecuteAction::RemoveFile { path }) && path@
                        == file
                    &&& events[from + 8] is Done ==> execution_error(
                        steps[from + 8],
                        "Build command failed with exit code "@ + signed_decimal(code as int),
                    )
                }
            }))
            &&& n == 1 && steps.len() > from + 9 && events[from + 7] == ExecuteEvent::<H>::Probed(false) ==> {
                &&& hands_back(steps[from + 7], base, cow, snapshot, group)
                &&& events[from + 8] == ExecuteEvent::<H>::Released ==> {
                    &&& steps[from + 8] matches Step::Do(ExecuteAction::RemoveFile { path }) && path@
                        == file
                    &&& events[from + 9] is Done ==> execution_error(
                        steps[from + 9],
                        "DM device not found for layer creation"@,
                    )
                }
            }
            &&& n == 2 && steps.len() > from + 9 ==> (
            events[from + 8] matches ExecuteEvent::Layered(Err(e)) ==> {
                &&& hands_back(steps[from + 8], base, cow, snapshot, group)
                &&& events[from + 9] == ExecuteEvent::<H>::Released ==> steps[from + 9] == ExecuteStep::<
                    H,
                >::Return(Err(e))
            })
        }),
{
}

} // verus!
