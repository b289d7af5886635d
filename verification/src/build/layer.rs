//! Running a command of a build in a VM and keeping the layer that it leaves.
use vstd::prelude::*;
use crate::build::clock::{build_name, build_name_now, layer_name, layer_name_now};
use crate::build::error::{fail, failed, BuildError, ErrorKind};
use crate::build::guard::{
    detached, every_device_is_detached_in_order, every_resource_is_released, loops_missing,
    mapper_missing, release_run, removes_snapshot, BuildResourceGuard, ReleaseEvent, ReleaseFlow,
    ReleasePhase, ReleaseStep,
};
use crate::build::runner::BuildRunner;
use crate::cow::LoopDevice;
use crate::flow::{is_run, lemma_first_steps, lemma_shorter_run, Step};
use crate::image::{copy_text, text_view};
use crate::number::{decimal, format_i64, format_u64, signed_decimal};
use crate::path::{join_path, joined_path};
use crate::text::{concat2, owned};

verus! {

/// How far a `RUN` instruction has come.
#[derive(Clone, Copy, PartialEq, Eq, Structural)]
pub enum RunPhase {
    Begin,
    CreateDir,
    Execute,
    Preserve,
    RemoveDir,
    Finished,
}

/// What a `RUN` instruction asks for.
pub enum RunAction {
    /// Create the directory and its parents.
    CreateDir { path: String },
    /// Run the command in a VM, with the directory for its files.
    Execute { rootfs: String, command: String, build_dir: String },
    /// Move a file.
    Rename { from: String, to: String },
    /// Remove the directory and everything in it.
    RemoveDir { path: String },
}

/// What happened to the last action of a `RUN` instruction.
pub enum RunEvent {
    Start,
    Done(Result<(), String>),
    /// The layer that the command left.
    Executed(Result<String, BuildError>),
}

/// The answer of a `RUN` instruction to an event.
pub type RunStep = Step<RunAction, String, BuildError>;

/// Workflow of a `RUN` instruction.
pub struct RunFlow {
    pub temp_dir: String,
    pub rootfs: String,
    pub command: String,
    /// The directory of this run.
    pub build_dir: String,
    /// Where the layer is kept.
    pub layer: String,
    /// The result, once it is known.
    pub outcome: Option<Result<String, BuildError>>,
    pub phase: RunPhase,
}

impl RunFlow {
    /// The workflow removes its directory and will then return the outcome.
    pub open spec fn cleans_up(pre: RunFlow, post: RunFlow, step: RunStep) -> bool {
        &&& post == RunFlow { outcome: post.outcome, phase: RunPhase::RemoveDir, ..pre }
        &&& step matches Step::Do(RunAction::RemoveDir { path }) && path@ == pre.build_dir@
    }

    /// The workflow keeps the layer under a name that carries the time `nanos`.
    pub open spec fn preserves_at(
        pre: RunFlow,
        layer: Seq<char>,
        nanos: Option<i64>,
        post: RunFlow,
        step: RunStep,
    ) -> bool {
        &&& post == RunFlow { layer: post.layer, phase: RunPhase::Preserve, ..pre }
        &&& post.layer@ == joined_path(pre.temp_dir@, layer_name(nanos))
        &&& step matches Step::Do(RunAction::Rename { from, to }) && from@ == layer && to@
            == post.layer@
    }

    /// How the workflow answers an event.
    pub open spec fn transition(pre: RunFlow, event: RunEvent, post: RunFlow, step: RunStep) -> bool {
        match (pre.phase, event) {
            (RunPhase::Begin, RunEvent::Start) => {
                &&& post == RunFlow { phase: RunPhase::CreateDir, ..pre }
                &&& step matches Step::Do(RunAction::CreateDir { path }) && path@ == pre.build_dir@
            },
            (RunPhase::CreateDir, RunEvent::Done(Err(e))) => {
                &&& post == RunFlow { phase: RunPhase::Finished, ..pre }
                &&& failed(step, ErrorKind::Execution, "Failed to create build dir: "@ + e@)
            },
            (RunPhase::CreateDir, RunEvent::Done(Ok(_))) => {
                &&& post == RunFlow { phase: RunPhase::Execute, ..pre }
                &&& step matches Step::Do(RunAction::Execute { rootfs, command, build_dir })
                    && rootfs@ == pre.rootfs@ && command@ == pre.command@ && build_dir@
                    == pre.build_dir@
            },
            (RunPhase::Execute, RunEvent::Executed(Ok(layer))) => exists|nanos: Option<i64>|
                (nanos matches Some(n) ==> n >= 0) && #[trigger] Self::preserves_at(
                    pre,
                    layer@,
                    nanos,
                    post,
                    step,
                ),
            (RunPhase::Execute, RunEvent::Executed(Err(e))) => {
                &&& Self::cleans_up(pre, post, step)
                &&& post.outcome == Some(Err::<String, BuildError>(e))
            },
            (RunPhase::Preserve, RunEvent::Done(Ok(_))) => {
                &&& Self::cleans_up(pre, post, step)
                &&& post.outcome matches Some(Ok(path)) && path@ == pre.layer@
            },
            (RunPhase::Preserve, RunEvent::Done(Err(e))) => {
                &&& Self::cleans_up(pre, post, step)
                &&& post.outcome matches Some(Err(error)) && error.says(
                    ErrorKind::Execution,
                    "Failed to preserve layer: "@ + e@,
                )
            },
            (RunPhase::RemoveDir, RunEvent::Done(_)) => match pre.outcome {
                Some(result) => {
                    &&& post == RunFlow { outcome: None, phase: RunPhase::Finished, ..pre }
                    &&& step == RunStep::Return(result)
                },
                None => post == pre && step is Unexpected,
            },
            _ => post == pre && step is Unexpected,
        }
    }

    fn clean_up(&mut self, outcome: Result<String, BuildError>) -> (r: RunStep)
        ensures
            Self::cleans_up(*old(self), *final(self), r),
            final(self).outcome == Some(outcome),
    {
        self.outcome = Some(outcome);
        self.phase = RunPhase::RemoveDir;
        Step::Do(RunAction::RemoveDir { path: self.build_dir.clone() })
    }

    /// Keeps the layer under a name of the temporary directory.
    pub fn preserve_as(&mut self, layer: String, name: &str) -> (r: RunStep)
        ensures
            *final(self) == (RunFlow {
                layer: final(self).layer,
                phase: RunPhase::Preserve,
                ..*old(self)
            }),
            final(self).layer@ == joined_path(old(self).temp_dir@, name@),
            r matches Step::Do(RunAction::Rename { from, to }) && from == layer
                && to@ == final(self).layer@,
    {
        let kept = join_path(self.temp_dir.as_str(), name);
        self.layer = kept.clone();
        self.phase = RunPhase::Preserve;
        Step::Do(RunAction::Rename { from: layer, to: kept })
    }

    /// Takes the outcome of the last action and says what to do next. The directory of the run is
    /// removed whether the command succeeds or not.
    pub fn step(&mut self, event: RunEvent) -> (r: RunStep)
        ensures
            Self::transition(*old(self), event, *final(self), r),
    {
        match (self.phase, event) {
            (RunPhase::Begin, RunEvent::Start) => {
                self.phase = RunPhase::CreateDir;
                Step::Do(RunAction::CreateDir { path: self.build_dir.clone() })
            },
            (RunPhase::CreateDir, RunEvent::Done(Err(e))) => {
                self.phase = RunPhase::Finished;
                fail(ErrorKind::Execution, "Failed to create build dir: ", e.as_str())
            },
            (RunPhase::CreateDir, RunEvent::Done(Ok(_))) => {
                self.phase = RunPhase::Execute;
                Step::Do(
                    RunAction::Execute {
                        rootfs: self.rootfs.clone(),
                        command: self.command.clone(),
                        build_dir: self.build_dir.clone(),
                    },
                )
            },
            (RunPhase::Execute, RunEvent::Executed(Ok(layer))) => {
                let ghost before = *self;
                let ghost left = layer@;
                let name = layer_name_now();
                let r = self.preserve_as(layer, name.as_str());
                proof {
                    let nanos = choose|nanos: Option<i64>|
                        (nanos matches Some(n) ==> n >= 0) && name@ == #[trigger] layer_name(nanos);
                    assert(Self::preserves_at(before, left, nanos, *self, r));
                }
                r
            },
            (RunPhase::Execute, RunEvent::Executed(Err(e))) => self.clean_up(Err(e)),
            (RunPhase::Preserve, RunEvent::Done(Ok(_))) => {
                let kept = self.layer.clone();
                self.clean_up(Ok(kept))
            },
            (RunPhase::Preserve, RunEvent::Done(Err(e))) => {
                let text = concat2("Failed to preserve layer: ", e.as_str());
                self.clean_up(Err(BuildError::new(ErrorKind::Execution, text)))
            },
            (RunPhase::RemoveDir, RunEvent::Done(_)) => match self.outcome.take() {
                Some(result) => {
                    self.phase = RunPhase::Finished;
                    Step::Return(result)
                },
                None => Step::Unexpected,
            },
            _ => Step::Unexpected,
        }
    }
}

/// How far the execution of a command has come.
#[derive(Clone, Copy, PartialEq, Eq, Structural)]
pub enum ExecutePhase {
    Begin,
    ProbeCached,
    Convert,
    CreateCow,
    OpenLoops,
    AttachBase,
    AttachCow,
    OpenMapper,
    Snapshot,
    Run,
    ProbeMapped,
    MakeLayer,
    Release,
    RemoveCow,
    Finished,
}

/// What the execution of a command asks for.
pub enum ExecuteAction<H> {
    /// Find out whether the path exists.
    Probe { path: String },
    /// Provide the ext4 form of a squashfs under a key of the cache.
    Convert { squashfs: String, key: String },
    /// Create a copy-on-write file.
    CreateCow { path: String, size_mb: u64 },
    /// Open the control of the loop devices.
    OpenLoops,
    /// Attach a file to a loop device.
    Attach { file: String },
    /// Open the control of the device mapper.
    OpenMapper,
    /// Create a snapshot of one device whose changes go to the other.
    Snapshot { name: String, base: String, cow: String },
    /// Run the command in a VM on a disk.
    Run { disk: String, command: String, vm_dir: String, cgroup: Option<String> },
    /// Make a squashfs of a device.
    MakeLayer { device: String, squashfs: String },
    /// Carry out a release.
    Release { flow: ReleaseFlow<H> },
    /// Remove a file.
    RemoveFile { path: String },
}

/// What happened to the last action of the execution of a command.
pub enum ExecuteEvent<H> {
    Start,
    Probed(bool),
    Converted(Result<String, BuildError>),
    Done(Result<(), String>),
    /// The loop device that a file was attached to.
    Attached(Result<LoopDevice<H>, String>),
    /// The path of the snapshot.
    Snapshot(Result<String, String>),
    /// The exit code of the VM.
    Ran(Result<i32, BuildError>),
    Layered(Result<(), BuildError>),
    Released,
}

/// The answer of the execution of a command to an event.
pub type ExecuteStep<H> = Step<ExecuteAction<H>, String, BuildError>;

/// Workflow that runs a command on a copy-on-write copy of a root file system, and makes a layer
/// of the result.
pub struct ExecuteFlow<H> {
    pub base: String,
    pub command: String,
    pub build_dir: String,
    /// What the cache has for the base.
    pub cached: Option<String>,
    /// The name of the snapshot, and the id under which the control group is released.
    pub dm_name: String,
    pub limited: bool,
    pub ext4: String,
    /// The loop device of the base.
    pub base_device: LoopDevice<H>,
    /// The loop device of the copy-on-write file.
    pub cow_device: LoopDevice<H>,
    pub outcome: Option<Result<String, BuildError>>,
    /// Whether the copy-on-write file is removed at the end.
    pub remove_cow: bool,
    pub phase: ExecutePhase,
}

/// The name of the snapshot of a build process.
pub open spec fn snapshot_name(pid: u32) -> Seq<char> {
    "vyoma-build-"@ + decimal(pid as nat)
}

/// The size of a copy-on-write file in mebibytes.
pub const COW_SIZE: u64 = 1024;

impl<H> ExecuteFlow<H> {
    /// The copy-on-write file.
    pub open spec fn cow_file(self) -> Seq<char> {
        joined_path(self.build_dir@, "cow.img"@)
    }

    /// The layer.
    pub open spec fn layer_file(self) -> Seq<char> {
        joined_path(self.build_dir@, "layer.sqfs"@)
    }

    /// The mapped device.
    pub open spec fn mapped_device(self) -> Seq<char> {
        "/dev/mapper/"@ + self.dm_name@
    }

    /// The id of the control group that is handed to the run of the VM and to the release, if the VM
    /// is limited. The run drops the prefix `vyoma-build-` of it and makes its group under the rest;
    /// the release removes the group of the whole id.
    pub open spec fn group(self) -> Option<Seq<char>> {
        if self.limited {
            Some(self.dm_name@)
        } else {
            None
        }
    }

    /// The workflow has the base in ext4 form and creates the copy-on-write file.
    pub open spec fn creates_cow(
        pre: ExecuteFlow<H>,
        ext4: Seq<char>,
        post: ExecuteFlow<H>,
        step: ExecuteStep<H>,
    ) -> bool {
        &&& post == ExecuteFlow { ext4: post.ext4, phase: ExecutePhase::CreateCow, ..pre }
        &&& post.ext4@ == ext4
        &&& step matches Step::Do(ExecuteAction::CreateCow { path, size_mb }) && path@
            == pre.cow_file() && size_mb == COW_SIZE
    }

    /// The workflow has the base converted.
    pub open spec fn converts(pre: ExecuteFlow<H>, post: ExecuteFlow<H>, step: ExecuteStep<H>) -> bool {
        &&& post == ExecuteFlow { phase: ExecutePhase::Convert, ..pre }
        &&& step matches Step::Do(ExecuteAction::Convert { squashfs, key }) && squashfs@
            == pre.base@ && key@ == pre.base@
    }

    /// The workflow ends with an error of the execution.
    pub open spec fn fails(
        pre: ExecuteFlow<H>,
        text: Seq<char>,
        post: ExecuteFlow<H>,
        step: ExecuteStep<H>,
    ) -> bool {
        &&& post == ExecuteFlow { phase: ExecutePhase::Finished, ..pre }
        &&& failed(step, ErrorKind::Execution, text)
    }

    /// The workflow releases both loop devices, the one of the base first, the snapshot and the
    /// control group of the id `group`, and will then return the outcome. The VM ran in the group of
    /// the id without its prefix, which this release does not name.
    pub open spec fn releases(
        pre: ExecuteFlow<H>,
        remove_cow: bool,
        post: ExecuteFlow<H>,
        step: ExecuteStep<H>,
    ) -> bool {
        &&& post == ExecuteFlow {
            base_device: post.base_device,
            cow_device: post.cow_device,
            outcome: post.outcome,
            remove_cow: remove_cow,
            phase: ExecutePhase::Release,
            ..pre
        }
        &&& releases_all(step, pre)
    }

    /// How the workflow answers an event.
    pub open spec fn transition(
        pre: ExecuteFlow<H>,
        event: ExecuteEvent<H>,
        post: ExecuteFlow<H>,
        step: ExecuteStep<H>,
    ) -> bool {
        match (pre.phase, event) {
            (ExecutePhase::Begin, ExecuteEvent::Start) => match pre.cached {
                Some(path) => {
                    &&& post == ExecuteFlow { phase: ExecutePhase::ProbeCached, ..pre }
                    &&& step matches Step::Do(ExecuteAction::Probe { path: p }) && p@ == path@
                },
                None => Self::converts(pre, post, step),
            },
            (ExecutePhase::ProbeCached, ExecuteEvent::Probed(present)) => match (
                pre.cached,
                present,
            ) {
                (Some(path), true) => Self::creates_cow(pre, path@, post, step),
                _ => Self::converts(pre, post, step),
            },
            (ExecutePhase::Convert, ExecuteEvent::Converted(Err(e))) => {
                &&& post == ExecuteFlow { phase: ExecutePhase::Finished, ..pre }
                &&& step == ExecuteStep::<H>::Return(Err(e))
            },
            (ExecutePhase::Convert, ExecuteEvent::Converted(Ok(path))) => Self::creates_cow(
                pre,
                path@,
                post,
                step,
            ),
            (ExecutePhase::CreateCow, ExecuteEvent::Done(Err(e))) => Self::fails(
                pre,
                "Failed to create COW file: "@ + e@,
                post,
                step,
            ),
            (ExecutePhase::CreateCow, ExecuteEvent::Done(Ok(_))) => {
                &&& post == ExecuteFlow { phase: ExecutePhase::OpenLoops, ..pre }
                &&& step matches Step::Do(ExecuteAction::OpenLoops)
            },
            (ExecutePhase::OpenLoops, ExecuteEvent::Done(Err(e))) => Self::fails(
                pre,
                "Failed to create loop manager: "@ + e@,
                post,
                step,
            ),
            (ExecutePhase::OpenLoops, ExecuteEvent::Done(Ok(_))) => {
                &&& post == ExecuteFlow { phase: ExecutePhase::AttachBase, ..pre }
                &&& step matches Step::Do(ExecuteAction::Attach { file }) && file@ == pre.ext4@
            },
            (ExecutePhase::AttachBase, ExecuteEvent::Attached(Err(e))) => Self::fails(
                pre,
                "Failed to attach base ext4: "@ + e@,
                post,
                step,
            ),
            (ExecutePhase::AttachBase, ExecuteEvent::Attached(Ok(device))) => {
                &&& post == ExecuteFlow {
                    base_device: device,
                    phase: ExecutePhase::AttachCow,
                    ..pre
                }
                &&& step matches Step::Do(ExecuteAction::Attach { file }) && file@ == pre.cow_file()
            },
            (ExecutePhase::AttachCow, ExecuteEvent::Attached(Err(e))) => Self::fails(
                pre,
                "Failed to attach COW: "@ + e@,
                post,
                step,
            ),
            (ExecutePhase::AttachCow, ExecuteEvent::Attached(Ok(device))) => {
                &&& post == ExecuteFlow {
                    cow_device: device,
                    phase: ExecutePhase::OpenMapper,
                    ..pre
                }
                &&& step matches Step::Do(ExecuteAction::OpenMapper)
            },
            (ExecutePhase::OpenMapper, ExecuteEvent::Done(Err(e))) => Self::fails(
                pre,
                "Failed to create DM manager: "@ + e@,
                post,
                step,
            ),
            (ExecutePhase::OpenMapper, ExecuteEvent::Done(Ok(_))) => {
                &&& post == ExecuteFlow { phase: ExecutePhase::Snapshot, ..pre }
                &&& step matches Step::Do(ExecuteAction::Snapshot { name, base, cow }) && name@
                    == pre.dm_name@ && base@ == pre.base_device.path@ && cow@
                    == pre.cow_device.path@
            },
            (ExecutePhase::Snapshot, ExecuteEvent::Snapshot(Err(e))) => Self::fails(
                pre,
                "Failed to create DM snapshot: "@ + e@,
                post,
                step,
            ),
            (ExecutePhase::Snapshot, ExecuteEvent::Snapshot(Ok(path))) => {
                &&& post == ExecuteFlow { phase: ExecutePhase::Run, ..pre }
                &&& step matches Step::Do(ExecuteAction::Run { disk, command, vm_dir, cgroup })
                    && disk@ == path@ && command@ == pre.command@ && vm_dir@ == pre.build_dir@
                    && text_view(cgroup) == pre.group()
            },
            (ExecutePhase::Run, ExecuteEvent::Ran(Ok(code))) => {
                if code == 0 {
                    &&& post == ExecuteFlow { phase: ExecutePhase::ProbeMapped, ..pre }
                    &&& step matches Step::Do(ExecuteAction::Probe { path }) && path@
                        == pre.mapped_device()
                } else {
                    &&& Self::releases(pre, true, post, step)
                    &&& post.outcome matches Some(Err(error)) && error.says(
                        ErrorKind::Execution,
                        "Build command failed with exit code "@ + signed_decimal(code as int),
                    )
                }
            },
            (ExecutePhase::Run, ExecuteEvent::Ran(Err(e))) => {
                &&& Self::releases(pre, true, post, step)
                &&& post.outcome == Some(Err::<String, BuildError>(e))
            },
            (ExecutePhase::ProbeMapped, ExecuteEvent::Probed(present)) => {
                if present {
                    &&& post == ExecuteFlow { phase: ExecutePhase::MakeLayer, ..pre }
                    &&& step matches Step::Do(ExecuteAction::MakeLayer { device, squashfs })
                        && device@ == pre.mapped_device() && squashfs@ == pre.layer_file()
                } else {
                    &&& Self::releases(pre, true, post, step)
                    &&& post.outcome matches Some(Err(error)) && error.says(
                        ErrorKind::Execution,
                        "DM device not found for layer creation"@,
                    )
                }
            },
            (ExecutePhase::MakeLayer, ExecuteEvent::Layered(Ok(_))) => {
                &&& Self::releases(pre, true, post, step)
                &&& post.outcome matches Some(Ok(path)) && path@ == pre.layer_file()
            },
            (ExecutePhase::MakeLayer, ExecuteEvent::Layered(Err(e))) => {
                &&& Self::releases(pre, false, post, step)
                &&& post.outcome == Some(Err::<String, BuildError>(e))
            },
            (ExecutePhase::Release, ExecuteEvent::Released) => {
                if pre.remove_cow {
                    &&& post == ExecuteFlow { phase: ExecutePhase::RemoveCow, ..pre }
                    &&& step matches Step::Do(ExecuteAction::RemoveFile { path }) && path@
                        == pre.cow_file()
                } else {
                    Self::ends(pre, post, step)
                }
            },
            (ExecutePhase::RemoveCow, ExecuteEvent::Done(_)) => Self::ends(pre, post, step),
            _ => post == pre && step is Unexpected,
        }
    }

    /// The workflow returns the outcome that it keeps.
    pub open spec fn ends(pre: ExecuteFlow<H>, post: ExecuteFlow<H>, step: ExecuteStep<H>) -> bool {
        match pre.outcome {
            Some(result) => {
                &&& post == ExecuteFlow { outcome: None, phase: ExecutePhase::Finished, ..pre }
                &&& step == ExecuteStep::<H>::Return(result)
            },
            None => post == pre && step is Unexpected,
        }
    }

    fn cow_path(&self) -> (r: String)
        ensures
            r@ == self.cow_file(),
    {
        join_path(self.build_dir.as_str(), "cow.img")
    }

    fn layer_path(&self) -> (r: String)
        ensures
            r@ == self.layer_file(),
    {
        join_path(self.build_dir.as_str(), "layer.sqfs")
    }

    fn group_name(&self) -> (r: Option<String>)
        ensures
            text_view(r) == self.group(),
    {
        if self.limited {
            Some(self.dm_name.clone())
        } else {
            None
        }
    }

    fn create_cow(&mut self, ext4: String) -> (r: ExecuteStep<H>)
        ensures
            Self::creates_cow(*old(self), ext4@, *final(self), r),
    {
        self.ext4 = ext4;
        self.phase = ExecutePhase::CreateCow;
        Step::Do(ExecuteAction::CreateCow { path: self.cow_path(), size_mb: COW_SIZE })
    }

    fn convert(&mut self) -> (r: ExecuteStep<H>)
        ensures
            Self::converts(*old(self), *final(self), r),
    {
        self.phase = ExecutePhase::Convert;
        Step::Do(ExecuteAction::Convert { squashfs: self.base.clone(), key: self.base.clone() })
    }

    fn give_up(&mut self, prefix: &str, detail: &str) -> (r: ExecuteStep<H>)
        ensures
            Self::fails(*old(self), prefix@ + detail@, *final(self), r),
    {
        self.phase = ExecutePhase::Finished;
        fail(ErrorKind::Execution, prefix, detail)
    }

    fn release(&mut self, outcome: Result<String, BuildError>, remove_cow: bool) -> (r: ExecuteStep<
        H,
    >)
        ensures
            Self::releases(*old(self), remove_cow, *final(self), r),
            final(self).outcome == Some(outcome),
    {
        let mut base: LoopDevice<H> = LoopDevice::new(String::new(), None);
        let mut cow: LoopDevice<H> = LoopDevice::new(String::new(), None);
        std::mem::swap(&mut base, &mut self.base_device);
        std::mem::swap(&mut cow, &mut self.cow_device);
        let devices: Vec<LoopDevice<H>> = vec![base, cow];
        assert(devices@ =~= seq![old(self).base_device, old(self).cow_device]);
        let guard: BuildResourceGuard<H, ()> = BuildResourceGuard::new(
            devices,
            Some(self.dm_name.clone()),
            self.group_name(),
            None,
        );
        let (flow, _) = guard.release();
        self.outcome = Some(outcome);
        self.remove_cow = remove_cow;
        self.phase = ExecutePhase::Release;
        Step::Do(ExecuteAction::Release { flow })
    }

    fn return_outcome(&mut self) -> (r: ExecuteStep<H>)
        ensures
            Self::ends(*old(self), *final(self), r),
    {
        match self.outcome.take() {
            Some(result) => {
                self.phase = ExecutePhase::Finished;
                Step::Return(result)
            },
            None => Step::Unexpected,
        }
    }

    /// Takes the outcome of the last action and says what to do next.
    pub fn step(&mut self, event: ExecuteEvent<H>) -> (r: ExecuteStep<H>)
        ensures
            Self::transition(*old(self), event, *final(self), r),
    {
        match (self.phase, event) {
            (ExecutePhase::Begin, ExecuteEvent::Start) => match copy_text(&self.cached) {
                Some(path) => {
                    self.phase = ExecutePhase::ProbeCached;
                    Step::Do(ExecuteAction::Probe { path })
                },
                None => self.convert(),
            },
            (ExecutePhase::ProbeCached, ExecuteEvent::Probed(present)) => {
                match copy_text(&self.cached) {
                    Some(path) => {
                        if present {
                            self.create_cow(path)
                        } else {
                            self.convert()
                        }
                    },
                    None => self.convert(),
                }
            },
            (ExecutePhase::Convert, ExecuteEvent::Converted(Err(e))) => {
                self.phase = ExecutePhase::Finished;
                Step::Return(Err(e))
            },
            (ExecutePhase::Convert, ExecuteEvent::Converted(Ok(path))) => self.create_cow(path),
            (ExecutePhase::CreateCow, ExecuteEvent::Done(Err(e))) => self.give_up(
                "Failed to create COW file: ",
                e.as_str(),
            ),
            (ExecutePhase::CreateCow, ExecuteEvent::Done(Ok(_))) => {
                self.phase = ExecutePhase::OpenLoops;
                Step::Do(ExecuteAction::OpenLoops)
            },
            (ExecutePhase::OpenLoops, ExecuteEvent::Done(Err(e))) => self.give_up(
                "Failed to create loop manager: ",
                e.as_str(),
            ),
            (ExecutePhase::OpenLoops, ExecuteEvent::Done(Ok(_))) => {
                self.phase = ExecutePhase::AttachBase;
                Step::Do(ExecuteAction::Attach { file: self.ext4.clone() })
            },
            (ExecutePhase::AttachBase, ExecuteEvent::Attached(Err(e))) => self.give_up(
                "Failed to attach base ext4: ",
                e.as_str(),
            ),
            (ExecutePhase::AttachBase, ExecuteEvent::Attached(Ok(device))) => {
                self.base_device = device;
                self.phase = ExecutePhase::AttachCow;
                Step::Do(ExecuteAction::Attach { file: self.cow_path() })
            },
            (ExecutePhase::AttachCow, ExecuteEvent::Attached(Err(e))) => self.give_up(
                "Failed to attach COW: ",
                e.as_str(),
            ),
            (ExecutePhase::AttachCow, ExecuteEvent::Attached(Ok(device))) => {
                self.cow_device = device;
                self.phase = ExecutePhase::OpenMapper;
                Step::Do(ExecuteAction::OpenMapper)
            },
            (ExecutePhase::OpenMapper, ExecuteEvent::Done(Err(e))) => self.give_up(
                "Failed to create DM manager: ",
                e.as_str(),
            ),
            (ExecutePhase::OpenMapper, ExecuteEvent::Done(Ok(_))) => {
                self.phase = ExecutePhase::Snapshot;
                Step::Do(
                    ExecuteAction::Snapshot {
                        name: self.dm_name.clone(),
                        base: self.base_device.path.clone(),
                        cow: self.cow_device.path.clone(),
                    },
                )
            },
            (ExecutePhase::Snapshot, ExecuteEvent::Snapshot(Err(e))) => self.give_up(
                "Failed to create DM snapshot: ",
                e.as_str(),
            ),
            (ExecutePhase::Snapshot, ExecuteEvent::Snapshot(Ok(path))) => {
                self.phase = ExecutePhase::Run;
                Step::Do(
                    ExecuteAction::Run {
                        disk: path,
                        command: self.command.clone(),
                        vm_dir: self.build_dir.clone(),
                        cgroup: self.group_name(),
                    },
                )
            },
            (ExecutePhase::Run, ExecuteEvent::Ran(Ok(code))) => {
                if code == 0 {
                    self.phase = ExecutePhase::ProbeMapped;
                    Step::Do(
                        ExecuteAction::Probe {
                            path: concat2("/dev/mapper/", self.dm_name.as_str()),
                        },
                    )
                } else {
                    let text = concat2(
                        "Build command failed with exit code ",
                        format_i64(code as i64).as_str(),
                    );
                    self.release(Err(BuildError::new(ErrorKind::Execution, text)), true)
                }
            },
            (ExecutePhase::Run, ExecuteEvent::Ran(Err(e))) => self.release(Err(e), true),
            (ExecutePhase::ProbeMapped, ExecuteEvent::Probed(present)) => {
                if present {
                    self.phase = ExecutePhase::MakeLayer;
                    Step::Do(
                        ExecuteAction::MakeLayer {
                            device: concat2("/dev/mapper/", self.dm_name.as_str()),
                            squashfs: self.layer_path(),
                        },
                    )
                } else {
                    let text = owned("DM device not found for layer creation");
                    self.release(Err(BuildError::new(ErrorKind::Execution, text)), true)
                }
            },
            (ExecutePhase::MakeLayer, ExecuteEvent::Layered(Ok(_))) => {
                let layer = self.layer_path();
                self.release(Ok(layer), true)
            },
            (ExecutePhase::MakeLayer, ExecuteEvent::Layered(Err(e))) => self.release(Err(e), false),
            (ExecutePhase::Release, ExecuteEvent::Released) => {
                if self.remove_cow {
                    self.phase = ExecutePhase::RemoveCow;
                    Step::Do(ExecuteAction::RemoveFile { path: self.cow_path() })
                } else {
                    self.return_outcome()
                }
            },
            (ExecutePhase::RemoveCow, ExecuteEvent::Done(_)) => self.return_outcome(),
            _ => Step::Unexpected,
        }
    }
}

impl BuildRunner {
    /// Begins a `RUN` instruction now.
    pub fn handle_run(&self, rootfs_path: &str, command: &str) -> (r: RunFlow)
        ensures
            r.temp_dir@ == self.temp_dir@,
            r.rootfs@ == rootfs_path@,
            r.command@ == command@,
            r.outcome is None,
            r.phase == RunPhase::Begin,
            exists|millis: i64|
                millis >= 0 && r.build_dir@ == joined_path(
                    self.temp_dir@,
                    #[trigger] build_name(millis),
                ),
    {
        let name = build_name_now();
        self.run_as(rootfs_path, command, name.as_str())
    }

    /// Begins a `RUN` instruction whose files are kept under `name`.
    pub fn run_as(&self, rootfs_path: &str, command: &str, name: &str) -> (r: RunFlow)
        ensures
            r.temp_dir@ == self.temp_dir@,
            r.rootfs@ == rootfs_path@,
            r.command@ == command@,
            r.outcome is None,
            r.phase == RunPhase::Begin,
            r.build_dir@ == joined_path(self.temp_dir@, name@),
    {
        RunFlow {
            temp_dir: self.temp_dir.clone(),
            rootfs: owned(rootfs_path),
            command: owned(command),
            build_dir: join_path(self.temp_dir.as_str(), name),
            layer: String::new(),
            outcome: None,
            phase: RunPhase::Begin,
        }
    }

    /// Begins to run a command in a VM for the build process `pid`.
    pub fn execute_build_in_vm<H>(
        &self,
        base_squashfs: &str,
        command: &str,
        build_dir: &str,
        pid: u32,
    ) -> (r: ExecuteFlow<H>)
        requires
            self.wf(),
        ensures
            r.base@ == base_squashfs@,
            r.command@ == command@,
            r.build_dir@ == build_dir@,
            r.cached is Some <==> self.ext4_cache@.contains_key(base_squashfs@),
            r.cached matches Some(path) ==> path@ == self.ext4_cache@[base_squashfs@],
            r.dm_name@ == snapshot_name(pid),
            r.limited == self.cgroups is Some,
            r.outcome is None,
            r.phase == ExecutePhase::Begin,
    {
        let limited = match &self.cgroups {
            Some(_) => true,
            None => false,
        };
        ExecuteFlow {
            base: owned(base_squashfs),
            command: owned(command),
            build_dir: owned(build_dir),
            cached: self.ext4_cache.get(base_squashfs),
            dm_name: concat2("vyoma-build-", format_u64(pid as u64).as_str()),
            limited,
            ext4: String::new(),
            base_device: LoopDevice::new(String::new(), None),
            cow_device: LoopDevice::new(String::new(), None),
            outcome: None,
            remove_cow: false,
            phase: ExecutePhase::Begin,
        }
    }
}

/// The steps of a `RUN` instruction.
pub open spec fn run_next() -> spec_fn(RunFlow, RunEvent, RunFlow, RunStep) -> bool {
    |pre: RunFlow, event: RunEvent, post: RunFlow, step: RunStep|
        RunFlow::transition(pre, event, post, step)
}

/// The answer removes this directory.
pub open spec fn removes(step: RunStep, dir: Seq<char>) -> bool {
    step matches Step::Do(RunAction::RemoveDir { path }) && path@ == dir
}

proof fn lemma_run_directory(states: Seq<RunFlow>, events: Seq<RunEvent>, steps: Seq<RunStep>)
    requires
        is_run(run_next(), states, events, steps),
        states[0].phase == RunPhase::Begin,
    ensures
        states.last().build_dir == states[0].build_dir,
        states.last().phase == RunPhase::RemoveDir ==> exists|i: int|
            0 <= i < steps.len() && removes(#[trigger] steps[i], states[0].build_dir@),
    decreases steps.len(),
{
    if steps.len() > 0 {
        lemma_shorter_run(run_next(), states, events, steps);
        let t = steps.drop_last();
        lemma_run_directory(states.drop_last(), events.drop_last(), t);
        let n = steps.len() - 1;
        if states.last().phase == RunPhase::RemoveDir {
            if states.drop_last().last().phase == RunPhase::RemoveDir {
                let i = choose|i: int|
                    0 <= i < t.len() && removes(#[trigger] t[i], states[0].build_dir@);
                assert(removes(steps[i], states[0].build_dir@));
            } else {
                assert(removes(steps[n], states[0].build_dir@));
            }
        }
    }
}

/// However a `RUN` instruction ends, it has removed its directory before, unless that directory
/// could not be created.
pub proof fn run_directory_is_removed(
    states: Seq<RunFlow>,
    events: Seq<RunEvent>,
    steps: Seq<RunStep>,
)
    requires
        is_run(run_next(), states, events, steps),
        states[0].phase == RunPhase::Begin,
        steps.len() > 0,
        steps.last() is Return,
    ensures
        ({
            ||| states[steps.len() - 1].phase == RunPhase::CreateDir && (
            events.last() matches RunEvent::Done(Err(_)))
            ||| exists|i: int|
                0 <= i < steps.len() - 1 && removes(#[trigger] steps[i], states[0].build_dir@)
        }),
{
    lemma_shorter_run(run_next(), states, events, steps);
    let t = steps.drop_last();
    lemma_run_directory(states.drop_last(), events.drop_last(), t);
    if states.drop_last().last().phase == RunPhase::RemoveDir {
        let i = choose|i: int| 0 <= i < t.len() && removes(#[trigger] t[i], states[0].build_dir@);
        assert(removes(steps[i], states[0].build_dir@));
    }
}

/// At `left` the command left a layer, which was to be moved to `path`.
pub open spec fn moving_at(
    states: Seq<RunFlow>,
    events: Seq<RunEvent>,
    steps: Seq<RunStep>,
    left: int,
    path: Seq<char>,
) -> bool {
    &&& 0 <= left < events.len()
    &&& states[left].phase == RunPhase::Execute
    &&& events[left] matches RunEvent::Executed(Ok(layer)) && (
    steps[left] matches Step::Do(RunAction::Rename { from, to }) && from@ == layer@ && to@ == path)
}

/// At `left` the command left a layer, which was to be moved to `path`, and at `moved` it was.
pub open spec fn kept_at(
    states: Seq<RunFlow>,
    events: Seq<RunEvent>,
    steps: Seq<RunStep>,
    left: int,
    moved: int,
    path: Seq<char>,
) -> bool {
    &&& moving_at(states, events, steps, left, path)
    &&& left < moved < events.len()
    &&& states[moved].phase == RunPhase::Preserve
    &&& events[moved] matches RunEvent::Done(Ok(_))
}

proof fn lemma_kept_layer(states: Seq<RunFlow>, events: Seq<RunEvent>, steps: Seq<RunStep>)
    requires
        is_run(run_next(), states, events, steps),
        states[0].phase == RunPhase::Begin,
        states[0].outcome is None,
    ensures
        states.last().phase == RunPhase::Preserve ==> exists|i: int| #[trigger]
            moving_at(states, events, steps, i, states.last().layer@),
        states.last().outcome matches Some(Ok(path)) ==> exists|i: int, j: int| #[trigger]
            kept_at(states, events, steps, i, j, path@),
    decreases steps.len(),
{
    if steps.len() > 0 {
        lemma_shorter_run(run_next(), states, events, steps);
        let s = states.drop_last();
        let e = events.drop_last();
        let t = steps.drop_last();
        let n = steps.len() - 1;
        let pre = s.last();
        let flow = states.last();
        lemma_kept_layer(s, e, t);
        if pre.phase == RunPhase::Preserve {
            let i = choose|i: int| #[trigger] moving_at(s, e, t, i, pre.layer@);
            assert(moving_at(states, events, steps, i, pre.layer@));
            if events.last() matches RunEvent::Done(Ok(_)) {
                assert(kept_at(states, events, steps, i, n, pre.layer@));
            }
        } else if flow.phase == RunPhase::Preserve {
            assert(moving_at(states, events, steps, n, flow.layer@));
        }
        match flow.outcome {
            Some(Ok(path)) => {
                if pre.phase != RunPhase::Preserve || !(events.last() is Done) {
                    assert(pre.outcome == flow.outcome);
                    let (i, j) = choose|i: int, j: int| #[trigger] kept_at(s, e, t, i, j, path@);
                    assert(kept_at(states, events, steps, i, j, path@)) by {
                        assert(moving_at(states, events, steps, i, path@));
                    }
                }
            },
            _ => {},
        }
    }
}

/// The root file system that a `RUN` instruction returns is the layer that its command left, moved to
/// the path that is returned.
pub proof fn returned_layer_is_what_the_command_left(
    states: Seq<RunFlow>,
    events: Seq<RunEvent>,
    steps: Seq<RunStep>,
    path: String,
)
    requires
        is_run(run_next(), states, events, steps),
        states[0].phase == RunPhase::Begin,
        states[0].outcome is None,
        steps.len() > 0,
        steps.last() == RunStep::Return(Ok(path)),
    ensures
        exists|left: int, moved: int| #[trigger]
            kept_at(states, events, steps, left, moved, path@),
{
    lemma_shorter_run(run_next(), states, events, steps);
    let s = states.drop_last();
    let e = events.drop_last();
    let t = steps.drop_last();
    lemma_kept_layer(s, e, t);
    let (i, j) = choose|i: int, j: int| #[trigger] kept_at(s, e, t, i, j, path@);
    assert(kept_at(states, events, steps, i, j, path@)) by {
        assert(moving_at(states, events, steps, i, path@));
    }
}

/// The steps of the execution of a command.
pub open spec fn execute_next<H>() -> spec_fn(
    ExecuteFlow<H>,
    ExecuteEvent<H>,
    ExecuteFlow<H>,
    ExecuteStep<H>,
) -> bool {
    |pre: ExecuteFlow<H>, event: ExecuteEvent<H>, post: ExecuteFlow<H>, step: ExecuteStep<H>|
        ExecuteFlow::transition(pre, event, post, step)
}

/// The answer runs the VM.
pub open spec fn runs_vm<H>(step: ExecuteStep<H>) -> bool {
    step matches Step::Do(ExecuteAction::Run { .. })
}

/// The answer makes the snapshot.
pub open spec fn makes_snapshot<H>(step: ExecuteStep<H>) -> bool {
    step matches Step::Do(ExecuteAction::Snapshot { .. })
}

/// The answer makes the layer.
pub open spec fn squashes<H>(step: ExecuteStep<H>) -> bool {
    step matches Step::Do(ExecuteAction::MakeLayer { .. })
}

/// The answer releases the loop device of the base, that of the copy-on-write file, the snapshot and
/// the control group of the id that the workflow has. The group that the VM runs in is another one:
/// its name lacks the prefix of that id.
pub open spec fn releases_all<H>(step: ExecuteStep<H>, flow: ExecuteFlow<H>) -> bool {
    step matches Step::Do(ExecuteAction::Release { flow: release }) && release.devices@ == seq![
        flow.base_device,
        flow.cow_device,
    ] && text_view(release.dm_name) == Some(flow.dm_name@) && text_view(release.cgroup)
        == flow.group() && release.phase == ReleasePhase::Begin
}

/// The VM ended with exit code 0.
pub open spec fn succeeded<H>(event: ExecuteEvent<H>) -> bool {
    event matches ExecuteEvent::Ran(Ok(code)) && code == 0
}

/// The base was attached to this device.
pub open spec fn base_attached<H>(
    flow: ExecuteFlow<H>,
    event: ExecuteEvent<H>,
    device: LoopDevice<H>,
) -> bool {
    flow.phase == ExecutePhase::AttachBase && event == ExecuteEvent::<H>::Attached(Ok(device))
}

/// The copy-on-write file was attached to this device.
pub open spec fn cow_attached<H>(
    flow: ExecuteFlow<H>,
    event: ExecuteEvent<H>,
    device: LoopDevice<H>,
) -> bool {
    flow.phase == ExecutePhase::AttachCow && event == ExecuteEvent::<H>::Attached(Ok(device))
}

/// The phases in which the VM has been asked to run and nothing has been released.
spec fn holds_vm(phase: ExecutePhase) -> bool {
    phase == ExecutePhase::Run || phase == ExecutePhase::ProbeMapped || phase
        == ExecutePhase::MakeLayer
}

/// The phases from the release on.
spec fn from_release(phase: ExecutePhase) -> bool {
    phase == ExecutePhase::Release || phase == ExecutePhase::RemoveCow || phase
        == ExecutePhase::Finished
}

/// The phases in which both loop devices are attached and nothing has been released.
spec fn holds_devices(phase: ExecutePhase) -> bool {
    phase == ExecutePhase::OpenMapper || phase == ExecutePhase::Snapshot || holds_vm(phase)
}

/// The answer at `i` releases the devices, the snapshot and the id of the workflow, and no layer is
/// made at it or after it.
pub open spec fn released_at<H>(steps: Seq<ExecuteStep<H>>, flow: ExecuteFlow<H>, i: int) -> bool {
    &&& 0 <= i < steps.len()
    &&& releases_all(steps[i], flow)
    &&& forall|j: int| i <= j < steps.len() ==> !squashes(#[trigger] steps[j])
}

proof fn lemma_release<H>(
    states: Seq<ExecuteFlow<H>>,
    events: Seq<ExecuteEvent<H>>,
    steps: Seq<ExecuteStep<H>>,
    ran: int,
)
    requires
        is_run(execute_next::<H>(), states, events, steps),
        0 <= ran < steps.len(),
        runs_vm(steps[ran]),
    ensures
        ({
            let flow = states.last();
            let used = states[ran];
            if holds_vm(flow.phase) {
                &&& flow.base_device == used.base_device
                &&& flow.cow_device == used.cow_device
                &&& flow.dm_name == used.dm_name
                &&& flow.limited == used.limited
            } else {
                &&& from_release(flow.phase)
                &&& exists|i: int| ran < i && #[trigger] released_at(steps, used, i)
            }
        }),
    decreases steps.len(),
{
    lemma_shorter_run(execute_next::<H>(), states, events, steps);
    let s = states.drop_last();
    let t = steps.drop_last();
    let n = steps.len() - 1;
    let used = states[ran];
    if ran == n {
        assert(s.last() == used);
    } else {
        assert(t[ran] == steps[ran]);
        assert(s[ran] == used);
        lemma_release(s, events.drop_last(), t, ran);
        if holds_vm(s.last().phase) {
            if !holds_vm(states.last().phase) {
                assert(released_at(steps, used, n));
            }
        } else {
            let i = choose|i: int| ran < i && #[trigger] released_at(t, used, i);
            assert forall|j: int| i <= j < steps.len() implies !squashes(#[trigger] steps[j]) by {
                if j < n {
                    assert(!squashes(t[j]));
                }
            }
            assert(steps[i] == t[i]);
            assert(released_at(steps, used, i));
        }
    }
}

/// Once a VM has been asked to run, the workflow does not return before it has asked to release both
/// loop devices, the snapshot and the control group of its id. That is not the group that the VM
/// runs in, which is named without the prefix of the id. No layer is made after the release.
pub proof fn vm_run_is_followed_by_release<H>(
    states: Seq<ExecuteFlow<H>>,
    events: Seq<ExecuteEvent<H>>,
    steps: Seq<ExecuteStep<H>>,
    ran: int,
)
    requires
        is_run(execute_next::<H>(), states, events, steps),
        0 <= ran < steps.len(),
        runs_vm(steps[ran]),
        steps.last() is Return,
    ensures
        exists|i: int| ran < i && #[trigger] released_at(steps, states[ran], i),
{
    lemma_release(states, events, steps, ran);
    lemma_shorter_run(execute_next::<H>(), states, events, steps);
}

proof fn lemma_attached<H>(
    states: Seq<ExecuteFlow<H>>,
    events: Seq<ExecuteEvent<H>>,
    steps: Seq<ExecuteStep<H>>,
)
    requires
        is_run(execute_next::<H>(), states, events, steps),
        states[0].phase == ExecutePhase::Begin,
    ensures
        ({
            let flow = states.last();
            &&& flow.phase == ExecutePhase::AttachCow || holds_devices(flow.phase) ==> exists|b: int|
                0 <= b < events.len() && base_attached(
                    states[b],
                    #[trigger] events[b],
                    flow.base_device,
                )
            &&& holds_devices(flow.phase) ==> exists|c: int|
                0 <= c < events.len() && cow_attached(
                    states[c],
                    #[trigger] events[c],
                    flow.cow_device,
                )
        }),
    decreases steps.len(),
{
    if steps.len() > 0 {
        lemma_shorter_run(execute_next::<H>(), states, events, steps);
        let s = states.drop_last();
        let e = events.drop_last();
        let n = steps.len() - 1;
        let pre = s.last();
        let flow = states.last();
        lemma_attached(s, e, steps.drop_last());
        if flow.phase == ExecutePhase::AttachCow || holds_devices(flow.phase) {
            if pre.phase == ExecutePhase::AttachCow || holds_devices(pre.phase) {
                let b = choose|b: int|
                    0 <= b < e.len() && base_attached(s[b], #[trigger] e[b], flow.base_device);
                assert(base_attached(states[b], events[b], flow.base_device));
            } else {
                assert(base_attached(states[n], events[n], flow.base_device));
            }
        }
        if holds_devices(flow.phase) {
            if holds_devices(pre.phase) {
                let c = choose|c: int|
                    0 <= c < e.len() && cow_attached(s[c], #[trigger] e[c], flow.cow_device);
                assert(cow_attached(states[c], events[c], flow.cow_device));
            } else {
                assert(cow_attached(states[n], events[n], flow.cow_device));
            }
        }
    }
}

/// Once the snapshot has been made, the workflow does not return before it has asked for a release.
/// The release is given the two loop devices that the base and the copy-on-write file were attached
/// to, the base first, and the name of the snapshot. No layer is made after it.
pub proof fn snapshot_is_released<H>(
    states: Seq<ExecuteFlow<H>>,
    events: Seq<ExecuteEvent<H>>,
    steps: Seq<ExecuteStep<H>>,
    at: int,
)
    requires
        is_run(execute_next::<H>(), states, events, steps),
        states[0].phase == ExecutePhase::Begin,
        0 <= at < steps.len() - 1,
        makes_snapshot(steps[at]),
        events[at + 1] matches ExecuteEvent::Snapshot(Ok(_)),
        steps.last() is Return,
    ensures
        exists|i: int| at < i && #[trigger] released_at(steps, states[at + 1], i),
        exists|b: int|
            0 <= b < events.len() && base_attached(
                states[b],
                #[trigger] events[b],
                states[at + 1].base_device,
            ),
        exists|c: int|
            0 <= c < events.len() && cow_attached(
                states[c],
                #[trigger] events[c],
                states[at + 1].cow_device,
            ),
        states[at + 1].dm_name == states[0].dm_name,
{
    let next = execute_next::<H>();
    assert(next(states[at], events[at], states[at + 1], steps[at]));
    assert(next(states[at + 1], events[at + 1], states[at + 2], steps[at + 1]));
    vm_run_is_followed_by_release(states, events, steps, at + 1);
    let s = states.take(at + 2);
    let e = events.take(at + 1);
    let t = steps.take(at + 1);
    lemma_first_steps(next, states, events, steps, at + 1);
    lemma_attached(s, e, t);
    lemma_kept(s, e, t);
    let flow = states[at + 1];
    assert(s.last() == flow);
    let b = choose|b: int| 0 <= b < e.len() && base_attached(s[b], #[trigger] e[b], flow.base_device);
    assert(base_attached(states[b], events[b], flow.base_device));
    let c = choose|c: int| 0 <= c < e.len() && cow_attached(s[c], #[trigger] e[c], flow.cow_device);
    assert(cow_attached(states[c], events[c], flow.cow_device));
}

/// A release that a workflow asks for detaches the loop device of the base and then that of the
/// copy-on-write file, and has the snapshot removed, if the controls can be opened.
pub proof fn release_takes_the_snapshot_down<H>(
    flow: ExecuteFlow<H>,
    step: ExecuteStep<H>,
    states: Seq<ReleaseFlow<H>>,
    events: Seq<ReleaseEvent>,
    steps: Seq<ReleaseStep<H>>,
)
    requires
        releases_all(step, flow),
        step == ExecuteStep::<H>::Do(ExecuteAction::Release { flow: states[0] }),
        release_run(states, events, steps),
        steps.len() > 0,
        steps.last() is Return,
        !loops_missing(states, events),
        !mapper_missing(states, events),
    ensures
        detached(steps) == seq![flow.base_device, flow.cow_device],
        exists|i: int|
            0 <= i < steps.len() && removes_snapshot(#[trigger] steps[i], flow.dm_name@),
{
    every_device_is_detached_in_order(states, events, steps);
    every_resource_is_released(states, events, steps);
}

proof fn lemma_kept<H>(
    states: Seq<ExecuteFlow<H>>,
    events: Seq<ExecuteEvent<H>>,
    steps: Seq<ExecuteStep<H>>,
)
    requires
        is_run(execute_next::<H>(), states, events, steps),
    ensures
        states.last().build_dir == states[0].build_dir,
        states.last().dm_name == states[0].dm_name,
    decreases steps.len(),
{
    if steps.len() > 0 {
        lemma_shorter_run(execute_next::<H>(), states, events, steps);
        lemma_kept(states.drop_last(), events.drop_last(), steps.drop_last());
    }
}

/// At `ran` the VM of the command ended with exit code 0.
pub open spec fn ran_at<H>(
    states: Seq<ExecuteFlow<H>>,
    events: Seq<ExecuteEvent<H>>,
    ran: int,
) -> bool {
    &&& 0 <= ran < events.len()
    &&& states[ran].phase == ExecutePhase::Run
    &&& succeeded(events[ran])
}

/// After that, at `asked`, the answer had the layer made of the mapped device.
pub open spec fn asked_at<H>(
    states: Seq<ExecuteFlow<H>>,
    events: Seq<ExecuteEvent<H>>,
    steps: Seq<ExecuteStep<H>>,
    ran: int,
    asked: int,
) -> bool {
    &&& ran_at(states, events, ran)
    &&& ran < asked < steps.len()
    &&& steps[asked] matches Step::Do(ExecuteAction::MakeLayer { device, squashfs }) && device@
        == states[0].mapped_device() && squashfs@ == states[0].layer_file()
}

/// After that, at `made`, the layer was reported as made.
pub open spec fn layered_at<H>(
    states: Seq<ExecuteFlow<H>>,
    events: Seq<ExecuteEvent<H>>,
    steps: Seq<ExecuteStep<H>>,
    ran: int,
    asked: int,
    made: int,
) -> bool {
    &&& asked_at(states, events, steps, ran, asked)
    &&& asked < made < events.len()
    &&& states[made].phase == ExecutePhase::MakeLayer
    &&& events[made] matches ExecuteEvent::Layered(Ok(_))
}

proof fn lemma_layer<H>(
    states: Seq<ExecuteFlow<H>>,
    events: Seq<ExecuteEvent<H>>,
    steps: Seq<ExecuteStep<H>>,
)
    requires
        is_run(execute_next::<H>(), states, events, steps),
        states[0].phase == ExecutePhase::Begin,
        states[0].outcome is None,
    ensures
        ({
            let flow = states.last();
            &&& flow.phase == ExecutePhase::ProbeMapped ==> exists|i: int| #[trigger]
                ran_at(states, events, i)
            &&& flow.phase == ExecutePhase::MakeLayer ==> exists|i: int, j: int| #[trigger]
                asked_at(states, events, steps, i, j)
            &&& flow.outcome matches Some(Ok(path)) ==> path@ == states[0].layer_file() && exists|
                i: int,
                j: int,
                k: int,
            | #[trigger]
                layered_at(states, events, steps, i, j, k)
        }),
    decreases steps.len(),
{
    if steps.len() > 0 {
        lemma_shorter_run(execute_next::<H>(), states, events, steps);
        let s = states.drop_last();
        let e = events.drop_last();
        let t = steps.drop_last();
        let n = steps.len() - 1;
        let pre = s.last();
        let flow = states.last();
        lemma_kept(s, e, t);
        lemma_layer(s, e, t);
        if pre.phase == ExecutePhase::ProbeMapped {
            let i = choose|i: int| #[trigger] ran_at(s, e, i);
            assert(ran_at(states, events, i));
            if flow.phase == ExecutePhase::MakeLayer {
                assert(asked_at(states, events, steps, i, n));
            }
        } else if flow.phase == ExecutePhase::ProbeMapped {
            assert(ran_at(states, events, n));
        }
        if pre.phase == ExecutePhase::MakeLayer {
            let (i, j) = choose|i: int, j: int| #[trigger] asked_at(s, e, t, i, j);
            assert(asked_at(states, events, steps, i, j)) by {
                assert(ran_at(states, events, i));
            }
            if events.last() matches ExecuteEvent::Layered(Ok(_)) {
                assert(layered_at(states, events, steps, i, j, n));
            }
        }
        match (pre.outcome, flow.outcome) {
            (Some(Ok(_)), Some(Ok(_))) => {
                let (i, j, k) = choose|i: int, j: int, k: int| #[trigger]
                    layered_at(s, e, t, i, j, k);
                assert(layered_at(states, events, steps, i, j, k)) by {
                    assert(ran_at(states, events, i));
                    assert(asked_at(states, events, steps, i, j));
                }
            },
            _ => {},
        }
    }
}

/// A layer is returned only if the VM ended with exit code 0, the layer was then asked for, of the
/// mapped device and as the file of the build directory that is returned, and was reported as made.
pub proof fn layer_needs_success<H>(
    states: Seq<ExecuteFlow<H>>,
    events: Seq<ExecuteEvent<H>>,
    steps: Seq<ExecuteStep<H>>,
)
    requires
        is_run(execute_next::<H>(), states, events, steps),
        states[0].phase == ExecutePhase::Begin,
        states[0].outcome is None,
        steps.len() > 0,
        steps.last() matches Step::Return(Ok(_)),
    ensures
        steps.last() matches Step::Return(Ok(path)) && path@ == states[0].layer_file(),
        exists|ran: int, asked: int, made: int| #[trigger]
            layered_at(states, events, steps, ran, asked, made),
{
    lemma_shorter_run(execute_next::<H>(), states, events, steps);
    let s = states.drop_last();
    let e = events.drop_last();
    let t = steps.drop_last();
    lemma_layer(s, e, t);
    let (i, j, k) = choose|i: int, j: int, k: int| #[trigger] layered_at(s, e, t, i, j, k);
    assert(layered_at(states, events, steps, i, j, k)) by {
        assert(ran_at(states, events, i));
        assert(asked_at(states, events, steps, i, j));
    }
}

/// A base that is in the cache, and whose file is still there, is not converted again: the file is
/// what is attached as the base of the snapshot.
pub proof fn cached_base_is_used_again<H>(
    path: Seq<char>,
    states: Seq<ExecuteFlow<H>>,
    steps: Seq<ExecuteStep<H>>,
)
    requires
        is_run(
            execute_next::<H>(),
            states,
            seq![
                ExecuteEvent::Start,
                ExecuteEvent::Probed(true),
                ExecuteEvent::Done(Ok(())),
                ExecuteEvent::Done(Ok(())),
            ],
            steps,
        ),
        states[0].phase == ExecutePhase::Begin,
        text_view(states[0].cached) == Some(path),
    ensures
        steps[0] matches Step::Do(ExecuteAction::Probe { path: p }) && p@ == path,
        steps[1] matches Step::Do(ExecuteAction::CreateCow { .. }),
        steps[2] matches Step::Do(ExecuteAction::OpenLoops),
        steps[3] matches Step::Do(ExecuteAction::Attach { file }) && file@ == path,
        states[4].phase == ExecutePhase::AttachBase,
{
    let events = seq![
        ExecuteEvent::<H>::Start,
        ExecuteEvent::Probed(true),
        ExecuteEvent::Done(Ok(())),
        ExecuteEvent::Done(Ok(())),
    ];
    assert(execute_next::<H>()(states[0], events[0], states[1], steps[0]));
    assert(execute_next::<H>()(states[1], events[1], states[2], steps[1]));
    assert(execute_next::<H>()(states[2], events[2], states[3], steps[2]));
    assert(execute_next::<H>()(states[3], events[3], states[4], steps[3]));
}

} // verus!
