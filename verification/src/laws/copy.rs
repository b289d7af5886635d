//! What copying a file into a root file system does.
use vstd::prelude::*;
use crate::build::copy::{copy_next, CopyAction, CopyEvent, CopyFlow, CopyPhase, CopyStep};
use crate::flow::{is_run, Step};
use crate::laws::ends::injection_error;
use crate::number::signed_decimal;
use crate::path::{joined_path, path_parent};
use crate::text::without_prefixes;

verus! {

/// The first `n` events of a copy into a root file system that is extracted to `temp`, where nothing
/// goes wrong and the destination has a parent directory.
pub open spec fn copy_goes_well(events: Seq<CopyEvent>, temp: String, n: int) -> bool {
    &&& n > 0 ==> events[0] == CopyEvent::Start
    &&& n > 1 ==> events[1] == CopyEvent::TempDir(Ok(temp))
    &&& n > 2 ==> events[2] == CopyEvent::Extracted(Ok(()))
    &&& n > 3 ==> events[3] == CopyEvent::Probed(true)
    &&& n > 4 ==> events[4] == CopyEvent::Done(Ok(()))
    &&& n > 5 ==> events[5] == CopyEvent::Done(Ok(()))
    &&& n > 6 ==> events[6] == CopyEvent::Done(Ok(()))
    &&& n > 7 ==> events[7] == CopyEvent::Done(Ok(()))
}

/// A copy extracts the root file system, looks for the source in the context directory, creates the
/// parent directory of the destination in the extracted root file system, copies the source there,
/// makes a squashfs of the extracted root file system, and puts that in the place of the root file
/// system. What goes wrong on the way ends it with an error that says so.
pub proof fn copy_puts_the_file_into_the_rootfs(
    states: Seq<CopyFlow>,
    events: Seq<CopyEvent>,
    steps: Seq<CopyStep>,
    temp: String,
    parent: Seq<char>,
    n: int,
)
    requires
        is_run(copy_next(), states, events, steps),
        states[0].phase == CopyPhase::Begin,
        0 <= n <= steps.len(),
        n <= 8,
        copy_goes_well(events, temp, n),
        path_parent(joined_path(temp@, without_prefixes(states[0].dst@, "/"@))) == Some(parent),
    ensures
        n > 0 ==> steps[0] matches Step::Do(CopyAction::MakeTempDir),
        n > 1 ==> (steps[1] matches Step::Do(CopyAction::Extract { squashfs, dest }) && squashfs@
            == states[0].rootfs@ && dest@ == temp@),
        n > 2 ==> (steps[2] matches Step::Do(CopyAction::Probe { path }) && path@ == joined_path(
            states[0].context_dir@,
            states[0].src@,
        )),
        n > 3 ==> (steps[3] matches Step::Do(CopyAction::CreateDir { path }) && path@ == parent),
        n > 4 ==> (steps[4] matches Step::Do(CopyAction::CopyFile { from, to }) && from@
            == joined_path(states[0].context_dir@, states[0].src@) && to@ == joined_path(
            temp@,
            without_prefixes(states[0].dst@, "/"@),
        )),
        n > 5 ==> (steps[5] matches Step::Do(CopyAction::CreateSquashfs { dir, squashfs }) && dir@
            == temp@ && exists|seconds: i64|
            seconds >= 0 && squashfs@ == joined_path(
                states[0].temp_dir@,
                "layer_"@ + #[trigger] signed_decimal(seconds as int) + "_injected.sqfs"@,
            )),
        n > 6 ==> ((steps[5], steps[6]) matches (
            Step::Do(CopyAction::CreateSquashfs { squashfs, .. }),
            Step::Do(CopyAction::CopyFile { from, to }),
        ) && from@ == squashfs@ && to@ == states[0].rootfs@),
        n > 7 ==> steps[7] matches Step::Return(Ok(_)),
        n == 1 < steps.len() ==> (events[1] matches CopyEvent::TempDir(Err(e)) ==> injection_error(
            steps[1],
            "Failed to create temp dir: "@ + e@,
        )),
        n == 2 < steps.len() ==> (events[2] matches CopyEvent::Extracted(Err(e)) ==> steps[2]
            == CopyStep::Return(Err(e))),
        n == 3 < steps.len() ==> (events[3] == CopyEvent::Probed(false) ==> injection_error(
            steps[3],
            "Source path "@ + states[0].src@ + " does not exist"@,
        )),
        n == 4 < steps.len() ==> (events[4] matches CopyEvent::Done(Err(e)) ==> injection_error(
            steps[4],
            "Failed to create dest dir: "@ + e@,
        )),
        n == 5 < steps.len() ==> (events[5] matches CopyEvent::Done(Err(e)) ==> injection_error(
            steps[5],
            "Failed to copy file: "@ + e@,
        )),
        n == 6 < steps.len() ==> (events[6] matches CopyEvent::Done(Err(e)) ==> injection_error(
            steps[6],
            "Failed to create new squashfs: "@ + e@,
        )),
        n == 7 < steps.len() ==> (events[7] matches CopyEvent::Done(Err(e)) ==> injection_error(
            steps[7],
            "Failed to update rootfs: "@ + e@,
        )),
{
    if n > 5 {
        let seconds = choose|seconds: i64|
            seconds >= 0 && #[trigger] CopyFlow::squashes_at(states[5], seconds, states[6], steps[5]);
        assert(states[6].layer@ == joined_path(
            states[0].temp_dir@,
            "layer_"@ + signed_decimal(seconds as int) + "_injected.sqfs"@,
        ));
    }
}

/// Where the destination has no parent directory none is created, and the source is copied at once.
pub proof fn copy_without_a_parent(
    states: Seq<CopyFlow>,
    events: Seq<CopyEvent>,
    steps: Seq<CopyStep>,
    temp: String,
)
    requires
        is_run(copy_next(), states, events, steps),
        states[0].phase == CopyPhase::Begin,
        steps.len() >= 4,
        copy_goes_well(events, temp, 4),
        path_parent(joined_path(temp@, without_prefixes(states[0].dst@, "/"@))) is None,
    ensures
        steps[3] matches Step::Do(CopyAction::CopyFile { from, to }) && from@ == joined_path(
            states[0].context_dir@,
            states[0].src@,
        ) && to@ == joined_path(temp@, without_prefixes(states[0].dst@, "/"@)),
{
}

/// A text is some number of slashes followed by what is left of it without them, and that does not
/// begin with one.
pub proof fn leading_slashes_are_taken_off(s: Seq<char>)
    ensures
        ({
            let rest = without_prefixes(s, "/"@);
            &&& rest.len() <= s.len()
            &&& s.skip(s.len() - rest.len()) == rest
            &&& forall|i: int| 0 <= i < s.len() - rest.len() ==> #[trigger] s[i] == '/'
            &&& rest.len() > 0 ==> rest[0] != '/'
        }),
    decreases s.len(),
{
    reveal_strlit("/");
    if s.len() > 0 && s[0] == '/' {
        assert("/"@ =~= s.subrange(0, 1));
        let t = s.skip(1);
        leading_slashes_are_taken_off(t);
        let rest = without_prefixes(t, "/"@);
        assert(s.skip(s.len() - rest.len()) =~= t.skip(t.len() - rest.len()));
        assert forall|i: int| 0 <= i < s.len() - rest.len() implies #[trigger] s[i] == '/' by {
            if i > 0 {
                assert(t[i - 1] == '/');
            }
        }
    } else {
        if "/"@.is_prefix_of(s) {
            assert(s.subrange(0, 1)[0] == s[0]);
        }
        assert(s.skip(0) =~= s);
    }
}

/// The file that a copy writes lies below the directory that the root file system was extracted to,
/// at the destination that was asked for: behind that directory stand a slash and the destination
/// without its leading slashes.
pub proof fn destination_lies_in_the_extracted_rootfs(flow: CopyFlow)
    requires
        flow.extracted@.len() > 0,
        flow.extracted@.last() != '/',
    ensures
        flow.destination() == flow.extracted@ + "/"@ + without_prefixes(flow.dst@, "/"@),
        flow.dst@.len() == 0 || flow.dst@[0] != '/' ==> flow.destination() == flow.extracted@ + "/"@
            + flow.dst@,
{
    leading_slashes_are_taken_off(flow.dst@);
    reveal_strlit("/");
    let rest = without_prefixes(flow.dst@, "/"@);
    assert(flow.destination() =~= flow.extracted@ + "/"@ + rest);
    if flow.dst@.len() == 0 || flow.dst@[0] != '/' {
        if rest.len() < flow.dst@.len() {
            assert(flow.dst@[0] == '/');
        }
        assert(flow.dst@.skip(0) =~= flow.dst@);
    }
}

/// The file that is copied is the one of that name in the context directory.
pub proof fn source_lies_in_the_context(flow: CopyFlow)
    requires
        flow.context_dir@.len() > 0,
        flow.context_dir@.last() != '/',
        flow.src@.len() == 0 || flow.src@[0] != '/',
    ensures
        flow.source() == flow.context_dir@ + "/"@ + flow.src@,
{
    reveal_strlit("/");
    assert(flow.source() =~= flow.context_dir@ + "/"@ + flow.src@);
}

} // verus!
