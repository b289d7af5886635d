//! What converting root file systems does.
use vstd::prelude::*;
use crate::build::convert::{
    to_ext4_next, to_squashfs_next, CacheFlow, CachePhase, ConvertAction, ConvertEvent, ConvertStep,
    ExtractFlow, ExtractPhase, MountError, ToExt4Flow, ToExt4Phase, ToSquashfsFlow, ToSquashfsPhase,
};
use crate::flow::{is_run, Step};
use crate::laws::ends::{execution_error, injection_error};
use crate::text::texts;

verus! {

/// The answer runs a program with these arguments.
pub open spec fn starts<T>(step: ConvertStep<T>, name: Seq<char>, list: Seq<Seq<char>>) -> bool {
    step matches Step::Do(ConvertAction::Run { program, args }) && program@ == name && texts(args)
        == list
}

/// A program ran and succeeded.
pub open spec fn ran_well(event: ConvertEvent) -> bool {
    event matches ConvertEvent::Ran(Ok(output)) && output.success
}

/// A program ran and failed, and left this behind.
pub open spec fn ran_badly(event: ConvertEvent, stderr: Seq<char>) -> bool {
    event matches ConvertEvent::Ran(Ok(output)) && !output.success && output.stderr@ == stderr
}

/// The steps of an extraction.
pub open spec fn extract_next() -> spec_fn(
    ExtractFlow,
    ConvertEvent,
    ExtractFlow,
    ConvertStep<()>,
) -> bool {
    |pre: ExtractFlow, event: ConvertEvent, post: ExtractFlow, step: ConvertStep<()>|
        ExtractFlow::transition(pre, event, post, step)
}

/// An extraction creates the directory that was asked for and has `unsquashfs` extract the squashfs
/// that was asked for into it. It succeeds exactly if that does.
pub proof fn extraction_runs_unsquashfs(
    states: Seq<ExtractFlow>,
    events: Seq<ConvertEvent>,
    steps: Seq<ConvertStep<()>>,
    stderr: Seq<char>,
)
    requires
        is_run(extract_next(), states, events, steps),
        states[0].phase == ExtractPhase::Begin,
        steps.len() >= 3,
        events[0] == ConvertEvent::Start,
    ensures
        steps[0] matches Step::Do(ConvertAction::CreateDir { path }) && path@ == states[0].dest@,
        events[1] matches ConvertEvent::Done(Err(e)) ==> injection_error(
            steps[1],
            "Failed to create extract dir: "@ + e@,
        ),
        events[1] matches ConvertEvent::Done(Ok(_)) ==> {
            &&& starts(
                steps[1],
                "unsquashfs"@,
                seq!["-f"@, "-d"@, states[0].dest@, states[0].squashfs@],
            )
            &&& ran_well(events[2]) ==> (steps[2] matches Step::Return(Ok(_)))
            &&& ran_badly(events[2], stderr) ==> injection_error(
                steps[2],
                "unsquashfs failed: "@ + stderr,
            )
            &&& events[2] matches ConvertEvent::Ran(Err(e)) ==> injection_error(
                steps[2],
                "Failed to run unsquashfs: "@ + e@,
            )
        },
{
}

/// A conversion to ext4 extracts the squashfs into a temporary directory, gives the file its size, and
/// formats it with what is in that directory. It succeeds exactly if all of these do.
pub proof fn ext4_is_made_of_the_squashfs(
    states: Seq<ToExt4Flow>,
    events: Seq<ConvertEvent>,
    steps: Seq<ConvertStep<()>>,
    temp: String,
    stderr: Seq<char>,
    n: int,
)
    requires
        is_run(to_ext4_next(), states, events, steps),
        states[0].phase == ToExt4Phase::Begin,
        0 <= n <= steps.len(),
        n <= 5,
        n > 0 ==> events[0] == ConvertEvent::Start,
        n > 1 ==> events[1] == ConvertEvent::TempDir(Ok(temp)),
        n > 2 ==> (events[2] matches ConvertEvent::Extracted(Ok(_))),
        n > 3 ==> ran_well(events[3]),
        n > 4 ==> ran_well(events[4]),
    ensures
        n > 0 ==> (steps[0] matches Step::Do(ConvertAction::MakeTempDir)),
        n > 1 ==> (steps[1] matches Step::Do(ConvertAction::Extract { squashfs, dest }) && squashfs@
            == states[0].squashfs@ && dest@ == temp@),
        n > 2 ==> starts(steps[2], "truncate"@, seq!["-s"@, "2G"@, states[0].ext4@]),
        n > 3 ==> starts(steps[3], "mkfs.ext4"@, seq!["-F"@, "-d"@, temp@, states[0].ext4@]),
        n > 4 ==> (steps[4] matches Step::Return(Ok(_))),
        n == 1 < steps.len() ==> (events[1] matches ConvertEvent::TempDir(Err(e))
            ==> execution_error(steps[1], "Failed to create temp dir: "@ + e@)),
        n == 2 < steps.len() ==> (events[2] matches ConvertEvent::Extracted(Err(e)) ==> steps[2]
            == ConvertStep::<()>::Return(Err(e))),
        n == 3 < steps.len() ==> (events[3] matches ConvertEvent::Ran(Err(e)) ==> execution_error(
            steps[3],
            "Failed to run truncate: "@ + e@,
        )),
        n == 3 < steps.len() ==> (ran_badly(events[3], stderr) ==> execution_error(
            steps[3],
            "truncate failed: "@ + stderr,
        )),
        n == 4 < steps.len() ==> (events[4] matches ConvertEvent::Ran(Err(e)) ==> execution_error(
            steps[4],
            "Failed to run mkfs.ext4: "@ + e@,
        )),
        n == 4 < steps.len() ==> (ran_badly(events[4], stderr) ==> execution_error(
            steps[4],
            "mkfs.ext4 failed: "@ + stderr,
        )),
{
}

/// A conversion to squashfs mounts the device at a temporary directory, has `mksquashfs` make the
/// squashfs of that directory, and unmounts it. It succeeds exactly if the device was mounted and
/// `mksquashfs` succeeded, whatever came of the unmounting.
pub proof fn squashfs_is_made_of_the_device(
    states: Seq<ToSquashfsFlow>,
    events: Seq<ConvertEvent>,
    steps: Seq<ConvertStep<()>>,
    temp: String,
    stderr: Seq<char>,
    n: int,
)
    requires
        is_run(to_squashfs_next(), states, events, steps),
        states[0].phase == ToSquashfsPhase::Begin,
        0 <= n <= steps.len(),
        n <= 5,
        n > 0 ==> events[0] == ConvertEvent::Start,
        n > 1 ==> events[1] == ConvertEvent::TempDir(Ok(temp)),
        n > 2 ==> (events[2] matches ConvertEvent::Mounted(Ok(_))),
        n > 3 ==> ran_well(events[3]) || ran_badly(events[3], stderr),
        n > 4 ==> events[4] is Done,
    ensures
        n > 0 ==> (steps[0] matches Step::Do(ConvertAction::MakeTempDir)),
        n > 1 ==> (steps[1] matches Step::Do(ConvertAction::Mount { device, dir, fstype })
            && device@ == states[0].ext4@ && dir@ == temp@ && fstype@ == "ext4"@),
        n > 2 ==> starts(
            steps[2],
            "mksquashfs"@,
            seq![temp@, states[0].squashfs@, "-comp"@, "zstd"@, "-quiet"@],
        ),
        n > 3 ==> (steps[3] matches Step::Do(ConvertAction::Unmount { dir }) && dir@ == temp@),
        n > 4 && ran_well(events[3]) ==> (steps[4] matches Step::Return(Ok(_))),
        n > 4 && ran_badly(events[3], stderr) ==> execution_error(
            steps[4],
            "mksquashfs failed: "@ + stderr,
        ),
        n == 1 < steps.len() ==> (events[1] matches ConvertEvent::TempDir(Err(e))
            ==> execution_error(steps[1], "Failed to create mount dir: "@ + e@)),
        n == 2 < steps.len() ==> (events[2] matches ConvertEvent::Mounted(Err(MountError::Path(e)))
            ==> execution_error(steps[2], "CString error: "@ + e@)),
        n == 2 < steps.len() ==> (events[2] matches ConvertEvent::Mounted(
            Err(MountError::System(e)),
        ) ==> execution_error(steps[2], "mount syscall failed: "@ + e@)),
        n == 3 < steps.len() ==> (events[3] matches ConvertEvent::Ran(Err(e)) ==> execution_error(
            steps[3],
            "Failed to execute mksquashfs: "@ + e@,
        )),
{
}

/// A cached conversion first creates the directory of the cache and looks for the file. A file that is
/// there is returned, and the cache is left alone; otherwise the squashfs is converted to it.
pub proof fn cached_file_is_looked_for_first(
    flow: CacheFlow,
    cache: Map<Seq<char>, Seq<char>>,
    event: ConvertEvent,
    post: CacheFlow,
    after: Map<Seq<char>, Seq<char>>,
    step: ConvertStep<String>,
)
    requires
        CacheFlow::transition(flow, cache, event, post, after, step),
    ensures
        flow.phase == CachePhase::Begin && event == ConvertEvent::Start ==> (step matches Step::Do(
            ConvertAction::CreateDir { path },
        ) && path@ == flow.dir@) && post.phase == CachePhase::CreateDir,
        flow.phase == CachePhase::CreateDir ==> (event matches ConvertEvent::Done(Ok(_)) ==> (
        step matches Step::Do(ConvertAction::Probe { path }) && path@ == flow.ext4@) && post.phase
            == CachePhase::Probe),
        flow.phase == CachePhase::CreateDir ==> (event matches ConvertEvent::Done(Err(e))
            ==> execution_error(step, "Failed to create cache dir: "@ + e@)),
        flow.phase == CachePhase::Probe && event == ConvertEvent::Probed(true) ==> (
        step matches Step::Return(Ok(path)) && path@ == flow.ext4@),
        flow.phase == CachePhase::Probe && event == ConvertEvent::Probed(false) ==> (
        step matches Step::Do(ConvertAction::ToExt4 { squashfs, ext4 }) && squashfs@
            == flow.squashfs@ && ext4@ == flow.ext4@) && post.phase == CachePhase::Convert,
        flow.phase == CachePhase::Convert ==> (event matches ConvertEvent::Converted(Err(e))
            ==> step == ConvertStep::<String>::Return(Err(e))),
        flow.phase == CachePhase::Convert ==> (event matches ConvertEvent::Converted(Ok(_)) ==> (
        step matches Step::Return(Ok(path)) && path@ == flow.ext4@)),
        post.squashfs@ == flow.squashfs@,
        post.key@ == flow.key@,
        post.dir@ == flow.dir@,
        post.ext4@ == flow.ext4@,
        after != cache ==> flow.phase == CachePhase::Convert && (
        event matches ConvertEvent::Converted(Ok(_))),
        flow.phase == CachePhase::Convert && (event matches ConvertEvent::Converted(Ok(_)))
            ==> after == cache.insert(flow.key@, flow.ext4@),
{
}

} // verus!
