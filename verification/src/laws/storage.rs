//! What attaching and detaching loop devices does, and the creation of copy-on-write files.
use vstd::prelude::*;
use crate::cow::{
    attach_next, attach_run, detach_next, AttachAction, AttachEvent, AttachFlow, AttachPhase,
    AttachStep, CowAction, CowEvent, CowFlow, CowPhase, DetachAction, DetachEvent, DetachFlow,
    DetachPhase, DetachStep, StorageError,
};
use crate::flow::{is_run, lemma_first_steps, lemma_shorter_run, Step};
use crate::path::{path_debug, path_parent};
use crate::text::{texts, trimmed};

verus! {

proof fn lemma_attach_kept<H>(
    states: Seq<AttachFlow>,
    events: Seq<AttachEvent<H>>,
    steps: Seq<AttachStep<H>>,
)
    requires
        is_run(attach_next::<H>(), states, events, steps),
    ensures
        states.last().file@ == states[0].file@,
        states.last().readonly == states[0].readonly,
    decreases steps.len(),
{
    if steps.len() > 0 {
        lemma_shorter_run(attach_next::<H>(), states, events, steps);
        lemma_attach_kept(states.drop_last(), events.drop_last(), steps.drop_last());
    }
}

/// Whatever happens on the way, an attachment works on the file that it was asked for and in the mode
/// that it was asked for. It opens the file for writing exactly if the device is to be writable, the
/// device that it attaches natively is read-only exactly if it is to be, and `losetup` gets the file
/// last among its arguments and `-r` among them exactly if the device is to be read-only.
pub proof fn attachment_keeps_file_and_mode<H>(
    states: Seq<AttachFlow>,
    events: Seq<AttachEvent<H>>,
    steps: Seq<AttachStep<H>>,
    at: int,
)
    requires
        attach_run(states, events, steps),
        0 <= at < steps.len(),
    ensures
        steps[at] matches Step::Do(AttachAction::Probe { file }) ==> file@ == states[0].file@,
        steps[at] matches Step::Do(AttachAction::Open { file, write }) ==> file@ == states[0].file@
            && (write <==> !states[0].readonly),
        steps[at] matches Step::Do(AttachAction::Attach { file, readonly }) ==> file@
            == states[0].file@ && (readonly <==> states[0].readonly),
        steps[at] matches Step::Do(AttachAction::Losetup { args }) ==> {
            &&& texts(args).last() == states[0].file@
            &&& texts(args).drop_last().contains("-f"@)
            &&& texts(args).drop_last().contains("--show"@)
            &&& texts(args).drop_last().contains("-r"@) <==> states[0].readonly
            &&& texts(args).len() == (if states[0].readonly {
                4
            } else {
                3int
            })
        },
{
    lemma_first_steps(attach_next::<H>(), states, events, steps, at);
    lemma_attach_kept(states.take(at + 1), events.take(at), steps.take(at));
    match steps[at] {
        Step::Do(AttachAction::Losetup { args }) => {
            reveal_strlit("-f");
            reveal_strlit("-r");
            reveal_strlit("--show");
            let front = texts(args).drop_last();
            assert(front[0] == "-f"@);
            assert(front[1] == "--show"@);
            if states[0].readonly {
                assert(front[2] == "-r"@);
            } else {
                assert(front.len() == 2);
                assert("-f"@[1] == 'f');
                assert("-r"@[1] == 'r');
                assert("--show"@[1] == '-');
            }
        },
        _ => {},
    }
}

/// An attachment finds out whether the file is there, has it opened for the record, reserves a device
/// and attaches the file to it. The device that is returned is the one that was attached. A file that
/// is not there is an error that shows its path, and an error other than a refused permission ends the
/// attachment as it is.
pub proof fn attachment_goes_the_native_way<H>(
    states: Seq<AttachFlow>,
    events: Seq<AttachEvent<H>>,
    steps: Seq<AttachStep<H>>,
)
    requires
        attach_run(states, events, steps),
        steps.len() >= 2,
        events[0] == AttachEvent::<H>::Start,
    ensures
        steps[0] matches Step::Do(AttachAction::Probe { .. }),
        events[1] == AttachEvent::<H>::Probed(false) ==> (steps[1] matches Step::Return(
            Err(StorageError::NotFound(m)),
        ) && m@ == "File not found: "@ + path_debug(states[0].file@)),
        steps.len() >= 5 && events[1] == AttachEvent::<H>::Probed(true) && events[2] is Opened ==> {
            &&& steps[1] matches Step::Do(AttachAction::Open { .. })
            &&& steps[2] matches Step::Do(AttachAction::NextFree)
            &&& events[3] matches AttachEvent::Free(Ok(_)) ==> {
                &&& steps[3] matches Step::Do(AttachAction::Attach { .. })
                &&& events[4] matches AttachEvent::Attached(Ok((path, handle))) ==> (
                steps[4] matches Step::Return(Ok(device)) && device.path == path && device.device
                    == Some(handle))
                &&& events[4] matches AttachEvent::Attached(Err(e)) ==> if e.code == Some(13i32) {
                    steps[4] matches Step::Do(AttachAction::Losetup { .. })
                } else {
                    steps[4] matches Step::Return(Err(StorageError::Io(x))) && x.code == e.code
                        && x.message@ == e.message@
                }
            }
            &&& events[3] matches AttachEvent::Free(Err(e)) ==> if e.code == Some(13i32) {
                steps[3] matches Step::Do(AttachAction::Losetup { .. })
            } else {
                steps[3] matches Step::Return(Err(StorageError::Io(x))) && x.code == e.code
                    && x.message@ == e.message@
            }
        },
{
}

/// Every attempt goes the same way, the first as well as one that follows a pause: once a device is
/// reserved the file is attached to it, and once that is done the device is returned with its handle. A
/// refused permission leads to `losetup` each time, and any other error ends the attachment as it is.
pub proof fn every_attempt_goes_the_same_way<H>(
    states: Seq<AttachFlow>,
    events: Seq<AttachEvent<H>>,
    steps: Seq<AttachStep<H>>,
    at: int,
)
    requires
        attach_run(states, events, steps),
        0 < at < steps.len(),
    ensures
        (steps[at - 1] matches Step::Do(AttachAction::Open { .. })) && events[at] is Opened ==> (
        steps[at] matches Step::Do(AttachAction::NextFree)),
        (steps[at - 1] matches Step::Do(AttachAction::NextFree)) ==> {
            &&& events[at] matches AttachEvent::Free(Ok(_)) ==> (steps[at] matches Step::Do(
                AttachAction::Attach { .. },
            ))
            &&& events[at] matches AttachEvent::Free(Err(e)) ==> if e.code == Some(13i32) {
                steps[at] matches Step::Do(AttachAction::Losetup { .. })
            } else {
                steps[at] matches Step::Return(Err(StorageError::Io(x))) && x.code == e.code
                    && x.message@ == e.message@
            }
        },
        (steps[at - 1] matches Step::Do(AttachAction::Attach { .. })) ==> {
            &&& events[at] matches AttachEvent::Attached(Ok((path, handle))) ==> (
            steps[at] matches Step::Return(Ok(device)) && device.path == path && device.device
                == Some(handle))
            &&& events[at] matches AttachEvent::Attached(Err(e)) ==> if e.code == Some(13i32) {
                steps[at] matches Step::Do(AttachAction::Losetup { .. })
            } else {
                steps[at] matches Step::Return(Err(StorageError::Io(x))) && x.code == e.code
                    && x.message@ == e.message@
            }
        },
        (steps[at - 1] matches Step::Do(AttachAction::Losetup { .. })) ==> (
        events[at] matches AttachEvent::Losetup(Ok((true, printed))) ==> (
        steps[at] matches Step::Return(Ok(device)) && device.path@ == trimmed(printed@)
            && device.device is None)),
        (steps[at - 1] matches Step::Do(AttachAction::Pause { .. })) && events[at] is Paused ==> (
        steps[at] matches Step::Do(AttachAction::NextFree)),
{
    lemma_first_steps(attach_next::<H>(), states, events, steps, at - 1);
    lemma_first_steps(attach_next::<H>(), states, events, steps, at);
}

/// What `losetup` prints is the device, and it has no handle. Where `losetup` cannot be run, or has
/// failed too often, the attachment ends with the refused permission that led to it; otherwise it
/// begins anew after a pause.
pub proof fn losetup_decides<H>(
    states: Seq<AttachFlow>,
    events: Seq<AttachEvent<H>>,
    steps: Seq<AttachStep<H>>,
    at: int,
)
    requires
        attach_run(states, events, steps),
        0 <= at < steps.len(),
        states[at].phase == AttachPhase::Losetup,
        events[at] is Losetup,
    ensures
        events[at] matches AttachEvent::Losetup(Ok((true, printed))) ==> (
        steps[at] matches Step::Return(Ok(device)) && device.path@ == trimmed(printed@)
            && device.device is None),
        events[at] matches AttachEvent::Losetup(Ok((false, _))) && states[at].retries < 50 ==> (
        steps[at] matches Step::Do(AttachAction::Pause { millis }) && millis == 20)
            && states[at + 1].retries == states[at].retries + 1,
        (events[at] matches AttachEvent::Losetup(Ok((false, _)))) && states[at].retries >= 50 || (
        events[at] matches AttachEvent::Losetup(Err(_))) ==> (steps[at] matches Step::Return(
            Err(StorageError::Io(e)),
        ) && e.code == Some(13i32) && e.message@ == states[at].error.message@),
        at + 1 < steps.len() && (steps[at] matches Step::Do(AttachAction::Pause { .. }))
            && events[at + 1] is Paused ==> (steps[at + 1] matches Step::Do(
            AttachAction::NextFree,
        )),
{
    lemma_first_steps(attach_next::<H>(), states, events, steps, at);
    lemma_refused_code(states.take(at + 1), events.take(at), steps.take(at));
    if at + 1 < steps.len() {
        lemma_first_steps(attach_next::<H>(), states, events, steps, at + 1);
    }
}

proof fn lemma_refused_code<H>(
    states: Seq<AttachFlow>,
    events: Seq<AttachEvent<H>>,
    steps: Seq<AttachStep<H>>,
)
    requires
        attach_run(states, events, steps),
    ensures
        states.last().phase == AttachPhase::Losetup ==> states.last().error.code == Some(13i32),
    decreases steps.len(),
{
    if steps.len() > 0 {
        lemma_shorter_run(attach_next::<H>(), states, events, steps);
        lemma_refused_code(states.drop_last(), events.drop_last(), steps.drop_last());
    }
}

/// The permission that is refused is the one whose message is kept.
pub proof fn refused_permission_is_kept<H>(
    pre: AttachFlow,
    event: AttachEvent<H>,
    post: AttachFlow,
    step: AttachStep<H>,
)
    requires
        AttachFlow::transition(pre, event, post, step),
        step matches Step::Do(AttachAction::Losetup { .. }),
    ensures
        event matches AttachEvent::Free(Err(e)) ==> post.error == e,
        event matches AttachEvent::Attached(Err(e)) ==> post.error == e,
        event matches AttachEvent::Free(Err(_)) || (event matches AttachEvent::Attached(Err(_))),
{
}

/// A device with a handle is detached through it, and what comes of that is what is returned.
pub proof fn native_device_is_detached_by_handle(
    states: Seq<DetachFlow>,
    events: Seq<DetachEvent>,
    steps: Seq<DetachStep>,
)
    requires
        is_run(detach_next(), states, events, steps),
        states[0].phase == DetachPhase::Begin,
        states[0].native,
        steps.len() >= 2,
        events[0] == DetachEvent::Start,
    ensures
        steps[0] matches Step::Do(DetachAction::Detach),
        events[1] matches DetachEvent::Done(Ok(_)) ==> (steps[1] matches Step::Return(Ok(_))),
        events[1] matches DetachEvent::Done(Err(e)) ==> steps[1] == DetachStep::Return(
            Err(StorageError::Io(e)),
        ),
{
}

/// A device without a handle is looked at by its path. If that is a block device it is opened by its
/// path and detached, whatever comes of that; otherwise there is nothing to detach.
pub proof fn device_is_detached_by_path(
    states: Seq<DetachFlow>,
    events: Seq<DetachEvent>,
    steps: Seq<DetachStep>,
)
    requires
        is_run(detach_next(), states, events, steps),
        states[0].phase == DetachPhase::Begin,
        !states[0].native,
        steps.len() >= 2,
        events[0] == DetachEvent::Start,
    ensures
        steps[0] matches Step::Do(DetachAction::Inspect { path }) && path@ == states[0].path@,
        events[1] == DetachEvent::Inspected(None) || events[1] == DetachEvent::Inspected(
            Some(false),
        ) ==> (steps[1] matches Step::Return(Ok(_))),
        events[1] == DetachEvent::Inspected(Some(true)) ==> (steps[1] matches Step::Do(
            DetachAction::Open { path },
        ) && path@ == states[0].path@),
        steps.len() >= 4 && events[1] == DetachEvent::Inspected(Some(true)) ==> {
            &&& events[2] == DetachEvent::Opened(false) ==> (steps[2] matches Step::Return(Ok(_)))
            &&& events[2] == DetachEvent::Opened(true) ==> {
                &&& steps[2] matches Step::Do(DetachAction::DetachOpened)
                &&& events[3] is Done ==> (steps[3] matches Step::Return(Ok(_)))
            }
        },
{
}

/// The steps of the creation of a copy-on-write file.
pub open spec fn cow_next() -> spec_fn(
    CowFlow,
    CowEvent,
    CowFlow,
    Step<CowAction, (), StorageError>,
) -> bool {
    |pre: CowFlow, event: CowEvent, post: CowFlow, step: Step<CowAction, (), StorageError>|
        CowFlow::transition(pre, event, post, step)
}

/// A copy-on-write file is created at the path that was asked for, after its directory, and is then
/// given the length that was asked for. The first error ends the creation as it is.
pub proof fn cow_file_gets_its_length(
    states: Seq<CowFlow>,
    events: Seq<CowEvent>,
    steps: Seq<Step<CowAction, (), StorageError>>,
    parent: Option<Seq<char>>,
    n: int,
)
    requires
        is_run(cow_next(), states, events, steps),
        states[0].phase == CowPhase::Begin,
        path_parent(states[0].path@) == parent,
        0 < n < steps.len(),
        n <= (if parent is Some {
            3
        } else {
            2int
        }),
        events[0] == CowEvent::Start,
        n > 1 ==> (events[1] matches CowEvent::Done(Ok(_))),
        n > 2 ==> (events[2] matches CowEvent::Done(Ok(_))),
    ensures
        parent matches Some(dir) ==> {
            &&& steps[0] matches Step::Do(CowAction::CreateDir { path }) && path@ == dir
            &&& n > 1 ==> (steps[1] matches Step::Do(CowAction::CreateFile { path }) && path@
                == states[0].path@)
            &&& n > 2 ==> (steps[2] matches Step::Do(CowAction::SetLength { bytes }) && bytes
                == states[0].bytes)
        },
        parent is None ==> {
            &&& steps[0] matches Step::Do(CowAction::CreateFile { path }) && path@
                == states[0].path@
            &&& n > 1 ==> (steps[1] matches Step::Do(CowAction::SetLength { bytes }) && bytes
                == states[0].bytes)
        },
        events[n] matches CowEvent::Done(Err(e)) ==> (steps[n] matches Step::Return(
            Err(StorageError::Io(x)),
        ) && x == e),
        n == (if parent is Some {
            3
        } else {
            2int
        }) ==> (events[n] matches CowEvent::Done(Ok(_)) ==> (steps[n] matches Step::Return(Ok(_)))),
{
}

} // verus!
