//! Copying a file of the build context into a root file system.
use vstd::prelude::*;
use crate::build::clock::{injected_name, injected_name_now};
use crate::build::error::{fail, failed, BuildError, ErrorKind};
use crate::build::runner::BuildRunner;
use crate::flow::{is_run, lemma_shorter_run, Step};
use crate::path::{join_path, joined_path, parent_of, path_parent};
use crate::text::{concat3, owned, trim_start_matches, without_prefixes};

verus! {

/// How far a copy has come.
#[derive(Clone, Copy, PartialEq, Eq, Structural)]
pub enum CopyPhase {
    Begin,
    TempDir,
    Extract,
    ProbeSource,
    CreateParent,
    CopyFile,
    Squash,
    Replace,
    Finished,
}

/// What a copy asks for.
pub enum CopyAction {
    /// Create a temporary directory.
    MakeTempDir,
    /// Extract a squashfs into a directory.
    Extract { squashfs: String, dest: String },
    /// Find out whether the path exists.
    Probe { path: String },
    /// Create the directory and its parents.
    CreateDir { path: String },
    /// Copy a file.
    CopyFile { from: String, to: String },
    /// Make a squashfs of a directory.
    CreateSquashfs { dir: String, squashfs: String },
}

/// What happened to the last action of a copy.
pub enum CopyEvent {
    Start,
    TempDir(Result<String, String>),
    Extracted(Result<(), BuildError>),
    Probed(bool),
    Done(Result<(), String>),
}

/// The answer of a copy to an event.
pub type CopyStep = Step<CopyAction, (), BuildError>;

/// Workflow that copies a file of the build context into a root file system.
///
/// A squashfs cannot be changed in place: it is extracted, the file is put in, and a new squashfs
/// takes its place.
pub struct CopyFlow {
    pub temp_dir: String,
    pub rootfs: String,
    pub context_dir: String,
    pub src: String,
    pub dst: String,
    /// The directory that the root file system is extracted to.
    pub extracted: String,
    /// The new squashfs.
    pub layer: String,
    pub phase: CopyPhase,
}

impl CopyFlow {
    /// The file to copy.
    pub open spec fn source(self) -> Seq<char> {
        joined_path(self.context_dir@, self.src@)
    }

    /// Where the file goes below the directory `extracted`.
    pub open spec fn destination(self) -> Seq<char> {
        joined_path(self.extracted@, without_prefixes(self.dst@, "/"@))
    }

    /// The workflow copies the file.
    pub open spec fn copies(pre: CopyFlow, post: CopyFlow, step: CopyStep) -> bool {
        &&& post == CopyFlow { phase: CopyPhase::CopyFile, ..pre }
        &&& step matches Step::Do(CopyAction::CopyFile { from, to }) && from@ == pre.source() && to@
            == pre.destination()
    }

    /// The workflow ends with an error about the injected file.
    pub open spec fn fails(pre: CopyFlow, text: Seq<char>, post: CopyFlow, step: CopyStep) -> bool {
        &&& post == CopyFlow { phase: CopyPhase::Finished, ..pre }
        &&& failed(step, ErrorKind::Injection, text)
    }

    /// The workflow makes a new squashfs, whose name carries the time `seconds`.
    pub open spec fn squashes_at(
        pre: CopyFlow,
        seconds: i64,
        post: CopyFlow,
        step: CopyStep,
    ) -> bool {
        &&& post == CopyFlow { layer: post.layer, phase: CopyPhase::Squash, ..pre }
        &&& post.layer@ == joined_path(pre.temp_dir@, injected_name(seconds))
        &&& step matches Step::Do(CopyAction::CreateSquashfs { dir, squashfs }) && dir@
            == pre.extracted@ && squashfs@ == post.layer@
    }

    /// How the workflow answers an event.
    pub open spec fn transition(
        pre: CopyFlow,
        event: CopyEvent,
        post: CopyFlow,
        step: CopyStep,
    ) -> bool {
        match (pre.phase, event) {
            (CopyPhase::Begin, CopyEvent::Start) => {
                &&& post == CopyFlow { phase: CopyPhase::TempDir, ..pre }
                &&& step matches Step::Do(CopyAction::MakeTempDir)
            },
            (CopyPhase::TempDir, CopyEvent::TempDir(Err(e))) => Self::fails(
                pre,
                "Failed to create temp dir: "@ + e@,
                post,
                step,
            ),
            (CopyPhase::TempDir, CopyEvent::TempDir(Ok(temp))) => {
                &&& post == CopyFlow { extracted: temp, phase: CopyPhase::Extract, ..pre }
                &&& step matches Step::Do(CopyAction::Extract { squashfs, dest }) && squashfs@
                    == pre.rootfs@ && dest@ == temp@
            },
            (CopyPhase::Extract, CopyEvent::Extracted(Err(e))) => {
                &&& post == CopyFlow { phase: CopyPhase::Finished, ..pre }
                &&& step == CopyStep::Return(Err(e))
            },
            (CopyPhase::Extract, CopyEvent::Extracted(Ok(_))) => {
                &&& post == CopyFlow { phase: CopyPhase::ProbeSource, ..pre }
                &&& step matches Step::Do(CopyAction::Probe { path }) && path@ == pre.source()
            },
            (CopyPhase::ProbeSource, CopyEvent::Probed(present)) => {
                if !present {
                    Self::fails(pre, "Source path "@ + pre.src@ + " does not exist"@, post, step)
                } else {
                    match path_parent(pre.destination()) {
                        Some(parent) => {
                            &&& post == CopyFlow { phase: CopyPhase::CreateParent, ..pre }
                            &&& step matches Step::Do(CopyAction::CreateDir { path }) && path@
                                == parent
                        },
                        None => Self::copies(pre, post, step),
                    }
                }
            },
            (CopyPhase::CreateParent, CopyEvent::Done(Err(e))) => Self::fails(
                pre,
                "Failed to create dest dir: "@ + e@,
                post,
                step,
            ),
            (CopyPhase::CreateParent, CopyEvent::Done(Ok(_))) => Self::copies(pre, post, step),
            (CopyPhase::CopyFile, CopyEvent::Done(Err(e))) => Self::fails(
                pre,
                "Failed to copy file: "@ + e@,
                post,
                step,
            ),
            (CopyPhase::CopyFile, CopyEvent::Done(Ok(_))) => exists|seconds: i64|
                seconds >= 0 && #[trigger] Self::squashes_at(pre, seconds, post, step),
            (CopyPhase::Squash, CopyEvent::Done(Err(e))) => Self::fails(
                pre,
                "Failed to create new squashfs: "@ + e@,
                post,
                step,
            ),
            (CopyPhase::Squash, CopyEvent::Done(Ok(_))) => {
                &&& post == CopyFlow { phase: CopyPhase::Replace, ..pre }
                &&& step matches Step::Do(CopyAction::CopyFile { from, to }) && from@ == pre.layer@
                    && to@ == pre.rootfs@
            },
            (CopyPhase::Replace, CopyEvent::Done(Err(e))) => Self::fails(
                pre,
                "Failed to update rootfs: "@ + e@,
                post,
                step,
            ),
            (CopyPhase::Replace, CopyEvent::Done(Ok(_))) => {
                &&& post == CopyFlow { phase: CopyPhase::Finished, ..pre }
                &&& step matches Step::Return(Ok(_))
            },
            _ => post == pre && step is Unexpected,
        }
    }

    fn source_path(&self) -> (r: String)
        ensures
            r@ == self.source(),
    {
        join_path(self.context_dir.as_str(), self.src.as_str())
    }

    fn destination_path(&self) -> (r: String)
        ensures
            r@ == self.destination(),
    {
        let relative = trim_start_matches(self.dst.as_str(), "/");
        join_path(self.extracted.as_str(), relative.as_str())
    }

    fn copy_file(&mut self) -> (r: CopyStep)
        ensures
            Self::copies(*old(self), *final(self), r),
    {
        self.phase = CopyPhase::CopyFile;
        Step::Do(CopyAction::CopyFile { from: self.source_path(), to: self.destination_path() })
    }

    fn give_up(&mut self, prefix: &str, detail: &str) -> (r: CopyStep)
        ensures
            Self::fails(*old(self), prefix@ + detail@, *final(self), r),
    {
        self.phase = CopyPhase::Finished;
        fail(ErrorKind::Injection, prefix, detail)
    }

    /// Makes the new squashfs under a name of the temporary directory.
    pub fn squash_as(&mut self, name: &str) -> (r: CopyStep)
        ensures
            *final(self) == (CopyFlow {
                layer: final(self).layer,
                phase: CopyPhase::Squash,
                ..*old(self)
            }),
            final(self).layer@ == joined_path(old(self).temp_dir@, name@),
            r matches Step::Do(CopyAction::CreateSquashfs { dir, squashfs }) && dir@ == old(
                self,
            ).extracted@ && squashfs@ == final(self).layer@,
    {
        let layer = join_path(self.temp_dir.as_str(), name);
        self.layer = layer.clone();
        self.phase = CopyPhase::Squash;
        Step::Do(CopyAction::CreateSquashfs { dir: self.extracted.clone(), squashfs: layer })
    }

    /// Takes the outcome of the last action and says what to do next. The first error ends the
    /// workflow.
    pub fn step(&mut self, event: CopyEvent) -> (r: CopyStep)
        ensures
            Self::transition(*old(self), event, *final(self), r),
    {
        match (self.phase, event) {
            (CopyPhase::Begin, CopyEvent::Start) => {
                self.phase = CopyPhase::TempDir;
                Step::Do(CopyAction::MakeTempDir)
            },
            (CopyPhase::TempDir, CopyEvent::TempDir(Err(e))) => self.give_up(
                "Failed to create temp dir: ",
                e.as_str(),
            ),
            (CopyPhase::TempDir, CopyEvent::TempDir(Ok(temp))) => {
                let dest = temp.clone();
                self.extracted = temp;
                self.phase = CopyPhase::Extract;
                Step::Do(CopyAction::Extract { squashfs: self.rootfs.clone(), dest })
            },
            (CopyPhase::Extract, CopyEvent::Extracted(Err(e))) => {
                self.phase = CopyPhase::Finished;
                Step::Return(Err(e))
            },
            (CopyPhase::Extract, CopyEvent::Extracted(Ok(_))) => {
                self.phase = CopyPhase::ProbeSource;
                Step::Do(CopyAction::Probe { path: self.source_path() })
            },
            (CopyPhase::ProbeSource, CopyEvent::Probed(present)) => {
                if !present {
                    self.phase = CopyPhase::Finished;
                    let text = concat3("Source path ", self.src.as_str(), " does not exist");
                    return Step::Return(Err(BuildError::new(ErrorKind::Injection, text)));
                }
                match parent_of(self.destination_path().as_str()) {
                    Some(parent) => {
                        self.phase = CopyPhase::CreateParent;
                        Step::Do(CopyAction::CreateDir { path: parent })
                    },
                    None => self.copy_file(),
                }
            },
            (CopyPhase::CreateParent, CopyEvent::Done(Err(e))) => self.give_up(
                "Failed to create dest dir: ",
                e.as_str(),
            ),
            (CopyPhase::CreateParent, CopyEvent::Done(Ok(_))) => self.copy_file(),
            (CopyPhase::CopyFile, CopyEvent::Done(Err(e))) => self.give_up(
                "Failed to copy file: ",
                e.as_str(),
            ),
            (CopyPhase::CopyFile, CopyEvent::Done(Ok(_))) => {
                let ghost before = *self;
                let name = injected_name_now();
                let r = self.squash_as(name.as_str());
                proof {
                    let seconds = choose|seconds: i64|
                        seconds >= 0 && name@ == #[trigger] injected_name(seconds);
                    assert(Self::squashes_at(before, seconds, *self, r));
                }
                r
            },
            (CopyPhase::Squash, CopyEvent::Done(Err(e))) => self.give_up(
                "Failed to create new squashfs: ",
                e.as_str(),
            ),
            (CopyPhase::Squash, CopyEvent::Done(Ok(_))) => {
                self.phase = CopyPhase::Replace;
                Step::Do(CopyAction::CopyFile { from: self.layer.clone(), to: self.rootfs.clone() })
            },
            (CopyPhase::Replace, CopyEvent::Done(Err(e))) => self.give_up(
                "Failed to update rootfs: ",
                e.as_str(),
            ),
            (CopyPhase::Replace, CopyEvent::Done(Ok(_))) => {
                self.phase = CopyPhase::Finished;
                Step::Return(Ok(()))
            },
            _ => Step::Unexpected,
        }
    }
}

impl BuildRunner {
    /// Begins to copy `src` of the build context to `dst` in the root file system.
    pub fn handle_copy(&self, rootfs_path: &str, context_dir: &str, src: &str, dst: &str) -> (r:
        CopyFlow)
        ensures
            r.temp_dir@ == self.temp_dir@,
            r.rootfs@ == rootfs_path@,
            r.context_dir@ == context_dir@,
            r.src@ == src@,
            r.dst@ == dst@,
            r.phase == CopyPhase::Begin,
    {
        CopyFlow {
            temp_dir: self.temp_dir.clone(),
            rootfs: owned(rootfs_path),
            context_dir: owned(context_dir),
            src: owned(src),
            dst: owned(dst),
            extracted: String::new(),
            layer: String::new(),
            phase: CopyPhase::Begin,
        }
    }
}

proof fn lemma_no_leading_slash(s: Seq<char>)
    ensures
        without_prefixes(s, "/"@).len() > 0 ==> without_prefixes(s, "/"@)[0] != '/',
    decreases s.len(),
{
    reveal_strlit("/");
    if "/"@.is_prefix_of(s) {
        lemma_no_leading_slash(s.skip("/"@.len() as int));
    } else if s.len() > 0 && s[0] == '/' {
        assert("/"@ =~= s.subrange(0, 1));
    }
}

/// An absolute destination is taken relative to the extracted root file system.
pub proof fn destination_is_below_extracted(flow: CopyFlow)
    ensures
        flow.extracted@.is_prefix_of(flow.destination()),
{
    lemma_no_leading_slash(flow.dst@);
    let to = flow.destination();
    assert(flow.extracted@ =~= to.subrange(0, flow.extracted@.len() as int));
}

/// The steps of a copy.
pub open spec fn copy_next() -> spec_fn(CopyFlow, CopyEvent, CopyFlow, CopyStep) -> bool {
    |pre: CopyFlow, event: CopyEvent, post: CopyFlow, step: CopyStep|
        CopyFlow::transition(pre, event, post, step)
}

/// The answer extracts the root file system.
pub open spec fn extracts(step: CopyStep, flow: CopyFlow) -> bool {
    step matches Step::Do(CopyAction::Extract { squashfs, dest }) && squashfs@ == flow.rootfs@
        && dest@ == flow.extracted@
}

/// The answer puts the source at its destination.
pub open spec fn puts_file(step: CopyStep, flow: CopyFlow) -> bool {
    step matches Step::Do(CopyAction::CopyFile { from, to }) && from@ == flow.source() && to@
        == flow.destination()
}

/// The answer makes the new squashfs.
pub open spec fn makes_layer(step: CopyStep, flow: CopyFlow) -> bool {
    step matches Step::Do(CopyAction::CreateSquashfs { dir, squashfs }) && dir@ == flow.extracted@
        && squashfs@ == flow.layer@
}

/// The answer puts the new squashfs in the place of the root file system.
pub open spec fn replaces_rootfs(step: CopyStep, flow: CopyFlow) -> bool {
    step matches Step::Do(CopyAction::CopyFile { from, to }) && from@ == flow.layer@ && to@
        == flow.rootfs@
}

/// What was asked for in this phase has been done.
pub open spec fn completed(flow: CopyFlow, event: CopyEvent, phase: CopyPhase) -> bool {
    flow.phase == phase && (event matches CopyEvent::Done(Ok(_)))
}

/// What the first `stage` of these have come to: at `a` the root file system was to be extracted, at
/// `b` it was, at `c` the file was to be put in, at `d` it was and the new squashfs was to be made,
/// and at `e` that was and was to replace the root file system.
pub open spec fn copied_so_far(
    states: Seq<CopyFlow>,
    events: Seq<CopyEvent>,
    steps: Seq<CopyStep>,
    stage: int,
    a: int,
    b: int,
    c: int,
    d: int,
    e: int,
) -> bool {
    let flow = states.last();
    &&& stage >= 1 ==> 0 <= a < steps.len() && extracts(steps[a], flow)
    &&& stage >= 2 ==> a < b < steps.len() && states[b].phase == CopyPhase::Extract && (
    events[b] matches CopyEvent::Extracted(Ok(_)))
    &&& stage >= 3 ==> b < c < steps.len() && puts_file(steps[c], flow)
    &&& stage >= 4 ==> c < d < steps.len() && completed(states[d], events[d], CopyPhase::CopyFile)
        && makes_layer(steps[d], flow)
    &&& stage >= 5 ==> d < e < steps.len() && completed(states[e], events[e], CopyPhase::Squash)
        && replaces_rootfs(steps[e], flow)
}

/// How many of the stages of `copied_so_far` lie behind a phase.
spec fn copy_stage(phase: CopyPhase) -> int {
    match phase {
        CopyPhase::Extract => 1,
        CopyPhase::ProbeSource | CopyPhase::CreateParent => 2,
        CopyPhase::CopyFile => 3,
        CopyPhase::Squash => 4,
        CopyPhase::Replace => 5,
        _ => 0,
    }
}

proof fn lemma_copy(states: Seq<CopyFlow>, events: Seq<CopyEvent>, steps: Seq<CopyStep>)
    requires
        is_run(copy_next(), states, events, steps),
        states[0].phase == CopyPhase::Begin,
    ensures
        ({
            let flow = states.last();
            &&& flow.rootfs == states[0].rootfs
            &&& flow.context_dir == states[0].context_dir
            &&& flow.src == states[0].src
            &&& flow.dst == states[0].dst
        }),
        exists|a: int, b: int, c: int, d: int, e: int| #[trigger]
            copied_so_far(
                states,
                events,
                steps,
                copy_stage(states.last().phase),
                a,
                b,
                c,
                d,
                e,
            ),
    decreases steps.len(),
{
    let now = copy_stage(states.last().phase);
    if steps.len() == 0 {
        assert(copied_so_far(states, events, steps, now, 0, 0, 0, 0, 0));
    } else {
        lemma_shorter_run(copy_next(), states, events, steps);
        let s = states.drop_last();
        let v = events.drop_last();
        let t = steps.drop_last();
        let n = steps.len() - 1;
        lemma_copy(s, v, t);
        let before = copy_stage(s.last().phase);
        let (a, b, c, d, e) = choose|a: int, b: int, c: int, d: int, e: int| #[trigger]
            copied_so_far(s, v, t, before, a, b, c, d, e);
        if now == before || now == 0 {
            assert(copied_so_far(states, events, steps, now, a, b, c, d, e));
        } else if now == 1 {
            assert(copied_so_far(states, events, steps, now, n, b, c, d, e));
        } else if now == 2 {
            assert(copied_so_far(states, events, steps, now, a, n, c, d, e));
        } else if now == 3 {
            assert(copied_so_far(states, events, steps, now, a, b, n, d, e));
        } else if now == 4 {
            assert(copied_so_far(states, events, steps, now, a, b, c, n, e));
        } else {
            assert(copied_so_far(states, events, steps, now, a, b, c, d, n));
        }
    }
}

/// A copy that succeeds has had the root file system extracted that it was asked to change, has then
/// put the source at its destination in it, has then made a new squashfs of it, and has then put that
/// in the place of the root file system. Each of these was reported as done.
pub proof fn successful_copy_replaces_rootfs(
    states: Seq<CopyFlow>,
    events: Seq<CopyEvent>,
    steps: Seq<CopyStep>,
)
    requires
        is_run(copy_next(), states, events, steps),
        states[0].phase == CopyPhase::Begin,
        steps.len() > 0,
        steps.last() matches Step::Return(Ok(_)),
    ensures
        states.last().rootfs == states[0].rootfs,
        states.last().source() == states[0].source(),
        states.last().dst == states[0].dst,
        exists|a: int, b: int, c: int, d: int, e: int| #[trigger]
            copied_so_far(states, events, steps, 5, a, b, c, d, e),
        completed(states[steps.len() - 1], events.last(), CopyPhase::Replace),
{
    lemma_shorter_run(copy_next(), states, events, steps);
    let s = states.drop_last();
    let v = events.drop_last();
    let t = steps.drop_last();
    lemma_copy(s, v, t);
    let (a, b, c, d, e) = choose|a: int, b: int, c: int, d: int, e: int| #[trigger]
        copied_so_far(s, v, t, 5, a, b, c, d, e);
    assert(copied_so_far(states, events, steps, 5, a, b, c, d, e));
}

/// The root file system is replaced only when the new squashfs has been made.
pub proof fn rootfs_is_replaced_last(
    pre: CopyFlow,
    event: CopyEvent,
    post: CopyFlow,
    step: CopyStep,
)
    requires
        CopyFlow::transition(pre, event, post, step),
        post.phase == CopyPhase::Replace,
        pre.phase != CopyPhase::Replace,
    ensures
        pre.phase == CopyPhase::Squash,
        event matches CopyEvent::Done(Ok(_)),
{
}

} // verus!
