//! VMs that run one command.
use vstd::prelude::*;
use crate::build::error::{fail, fail_plain, failed, BuildError, ErrorKind};
use crate::build::runner::{readonly_vm_args, BuildRunner};
use crate::flow::Step;
use crate::image::{copy_text, text_view};
use crate::number::{decimal, format_u64};
use crate::path::{join_path, joined_path};
use crate::text::{concat2, owned, texts, trim_start_matches, without_prefixes};

verus! {

/// How long a VM may run, in milliseconds.
pub const VM_TIMEOUT: u64 = 300000;

/// How long to wait before looking again, in milliseconds.
pub const POLL_INTERVAL: u64 = 100;

/// The share of a processor that a build VM gets, in percent.
pub const BUILD_CPU_PERCENT: u32 = 100;

/// The memory that a build VM gets, in bytes.
pub const BUILD_MEMORY: u64 = 536870912;

/// The exit code that a VM ended with; one that was ended by a signal counts as failed.
pub open spec fn exit_code(code: Option<i32>) -> i32 {
    match code {
        Some(c) => c,
        None => 1,
    }
}

/// The exit code that a VM ended with; one that was ended by a signal counts as failed.
pub fn exit_code_of(code: Option<i32>) -> (r: i32)
    ensures
        r == exit_code(code),
{
    match code {
        Some(c) => c,
        None => 1,
    }
}

/// The arguments of the hypervisor for a VM that runs a command of a build on a disk.
pub open spec fn build_vm_args(
    kernel: Seq<char>,
    initramfs: Seq<char>,
    disk: Seq<char>,
    socket: Seq<char>,
) -> Seq<Seq<char>> {
    seq![
        "--kernel"@,
        kernel,
        "--initramfs"@,
        initramfs,
        "--disk"@,
        "path="@ + disk,
        "--console"@,
        "off"@,
        "--serial"@,
        "tty"@,
        "--api-socket"@,
        socket,
        "--cpus"@,
        "boot=1"@,
        "--memory"@,
        "size=512M"@,
        "--cmdline"@,
        "console=ttyS0 reboot=k panic=1 quiet"@,
    ]
}

fn list_build_vm_args(kernel: &str, initramfs: &str, disk: &str, socket: &str) -> (r: Vec<String>)
    ensures
        texts(r) == build_vm_args(kernel@, initramfs@, disk@, socket@),
{
    let r: Vec<String> = vec![
        owned("--kernel"),
        owned(kernel),
        owned("--initramfs"),
        owned(initramfs),
        owned("--disk"),
        concat2("path=", disk),
        owned("--console"),
        owned("off"),
        owned("--serial"),
        owned("tty"),
        owned("--api-socket"),
        owned(socket),
        owned("--cpus"),
        owned("boot=1"),
        owned("--memory"),
        owned("size=512M"),
        owned("--cmdline"),
        owned("console=ttyS0 reboot=k panic=1 quiet"),
    ];
    assert(texts(r) =~= build_vm_args(kernel@, initramfs@, disk@, socket@));
    r
}

/// How far a VM that runs a command of a build has come.
#[derive(Clone, Copy, PartialEq, Eq, Structural)]
pub enum CommandPhase {
    Begin,
    FindKernel,
    BuildInitramfs,
    FindHypervisor,
    Spawn,
    CreateCgroup,
    SetCpu,
    SetMemory,
    AddProcess,
    Poll,
    Sleep,
    LastPause,
    Finished,
}

/// What a VM that runs a command asks for.
pub enum CommandAction {
    /// Find the kernel.
    FindKernel,
    /// Create the initial RAM file system that runs the command.
    BuildInitramfs { command: String },
    /// Find the hypervisor.
    FindHypervisor,
    /// Create the directory and its parents.
    CreateDir { path: String },
    /// Start a program.
    Spawn { program: String, args: Vec<String> },
    /// Create the control group of a VM.
    CreateCgroup { id: String },
    /// Limit the processor time of a control group.
    SetCpuLimit { id: String, percent: u32 },
    /// Limit the memory of a control group.
    SetMemoryLimit { id: String, bytes: u64 },
    /// Put a process into a control group.
    AddProcess { id: String, pid: u32 },
    /// Find out whether the program has ended.
    Poll,
    /// Wait so many milliseconds.
    Sleep { millis: u64 },
    /// Wait until the program has ended, for so many milliseconds at most.
    Wait { limit_millis: u64 },
    /// End the program.
    Kill,
    /// Remove the directory and everything in it.
    RemoveDir { path: String },
}

/// What happened to the last action of a VM.
pub enum CommandEvent {
    Start,
    /// The path of the file that was looked for or made.
    Found(Result<String, BuildError>),
    /// The id of the process that was started.
    Spawned(Result<u32, String>),
    Done(Result<(), String>),
    /// Whether the program has ended, and how; and the milliseconds since it was first asked.
    Polled { ended: Option<Option<i32>>, elapsed_millis: u64 },
    Slept,
    /// How the program ended.
    Ended(Result<Option<i32>, String>),
    /// The program has not ended in time.
    TimedOut,
}

/// The answer of a VM that runs a command of a build to an event: the exit code and the id of the
/// process.
pub type CommandStep = Step<CommandAction, (i32, Option<u32>), BuildError>;

/// Workflow that runs a command in a VM on a disk.
pub struct CommandFlow {
    pub rootdisk: String,
    pub command: String,
    pub vm_dir: String,
    /// The control group of the VM.
    pub cgroup: Option<String>,
    pub kernel: String,
    pub initramfs: String,
    pub pid: u32,
    pub phase: CommandPhase,
}

impl CommandFlow {
    /// The socket of the hypervisor.
    pub open spec fn socket(self) -> Seq<char> {
        joined_path(self.vm_dir@, "ch.sock"@)
    }

    /// The workflow passes an error on.
    pub open spec fn passes_on(
        pre: CommandFlow,
        error: BuildError,
        post: CommandFlow,
        step: CommandStep,
    ) -> bool {
        &&& post == CommandFlow { phase: CommandPhase::Finished, ..pre }
        &&& step == CommandStep::Return(Err(error))
    }

    /// The workflow asks whether the VM has ended.
    pub open spec fn polls(pre: CommandFlow, post: CommandFlow, step: CommandStep) -> bool {
        &&& post == CommandFlow { phase: CommandPhase::Poll, ..pre }
        &&& step matches Step::Do(CommandAction::Poll)
    }

    /// How the workflow answers an event.
    pub open spec fn transition(
        pre: CommandFlow,
        event: CommandEvent,
        post: CommandFlow,
        step: CommandStep,
    ) -> bool {
        match (pre.phase, event) {
            (CommandPhase::Begin, CommandEvent::Start) => {
                &&& post == CommandFlow { phase: CommandPhase::FindKernel, ..pre }
                &&& step matches Step::Do(CommandAction::FindKernel)
            },
            (CommandPhase::FindKernel, CommandEvent::Found(Ok(path))) => {
                &&& post == CommandFlow {
                    kernel: path,
                    phase: CommandPhase::BuildInitramfs,
                    ..pre
                }
                &&& step matches Step::Do(CommandAction::BuildInitramfs { command }) && command@
                    == pre.command@
            },
            (CommandPhase::FindKernel, CommandEvent::Found(Err(e))) => Self::passes_on(
                pre,
                e,
                post,
                step,
            ),
            (CommandPhase::BuildInitramfs, CommandEvent::Found(Ok(path))) => {
                &&& post == CommandFlow {
                    initramfs: path,
                    phase: CommandPhase::FindHypervisor,
                    ..pre
                }
                &&& step matches Step::Do(CommandAction::FindHypervisor)
            },
            (CommandPhase::BuildInitramfs, CommandEvent::Found(Err(e))) => Self::passes_on(
                pre,
                e,
                post,
                step,
            ),
            (CommandPhase::FindHypervisor, CommandEvent::Found(Ok(path))) => {
                &&& post == CommandFlow { phase: CommandPhase::Spawn, ..pre }
                &&& step matches Step::Do(CommandAction::Spawn { program, args }) && program == path
                    && texts(args) == build_vm_args(
                    pre.kernel@,
                    pre.initramfs@,
                    pre.rootdisk@,
                    pre.socket(),
                )
            },
            (CommandPhase::FindHypervisor, CommandEvent::Found(Err(e))) => Self::passes_on(
                pre,
                e,
                post,
                step,
            ),
            (CommandPhase::Spawn, CommandEvent::Spawned(Err(e))) => {
                &&& post == CommandFlow { phase: CommandPhase::Finished, ..pre }
                &&& failed(step, ErrorKind::Vm, "Failed to start cloud-hypervisor: "@ + e@)
            },
            (CommandPhase::Spawn, CommandEvent::Spawned(Ok(pid))) => match pre.cgroup {
                Some(group) => {
                    &&& post == CommandFlow { pid, phase: CommandPhase::CreateCgroup, ..pre }
                    &&& step matches Step::Do(CommandAction::CreateCgroup { id }) && id@ == group@
                },
                None => Self::polls(CommandFlow { pid, ..pre }, post, step),
            },
            (CommandPhase::CreateCgroup, CommandEvent::Done(created)) => match (
                pre.cgroup,
                created,
            ) {
                (Some(group), Ok(_)) => {
                    &&& post == CommandFlow { phase: CommandPhase::SetCpu, ..pre }
                    &&& step matches Step::Do(CommandAction::SetCpuLimit { id, percent }) && id@
                        == group@ && percent == BUILD_CPU_PERCENT
                },
                _ => Self::polls(pre, post, step),
            },
            (CommandPhase::SetCpu, CommandEvent::Done(_)) => match pre.cgroup {
                Some(group) => {
                    &&& post == CommandFlow { phase: CommandPhase::SetMemory, ..pre }
                    &&& step matches Step::Do(CommandAction::SetMemoryLimit { id, bytes }) && id@
                        == group@ && bytes == BUILD_MEMORY
                },
                None => Self::polls(pre, post, step),
            },
            (CommandPhase::SetMemory, CommandEvent::Done(_)) => match pre.cgroup {
                Some(group) => {
                    &&& post == CommandFlow { phase: CommandPhase::AddProcess, ..pre }
                    &&& step matches Step::Do(CommandAction::AddProcess { id, pid }) && id@
                        == group@ && pid == pre.pid
                },
                None => Self::polls(pre, post, step),
            },
            (CommandPhase::AddProcess, CommandEvent::Done(_)) => Self::polls(pre, post, step),
            (CommandPhase::Poll, CommandEvent::Polled { ended, elapsed_millis }) => match ended {
                Some(code) => {
                    &&& post == CommandFlow { phase: CommandPhase::Finished, ..pre }
                    &&& step == CommandStep::Return(Ok((exit_code(code), Some(pre.pid))))
                },
                None => if elapsed_millis >= VM_TIMEOUT {
                    &&& post == CommandFlow { phase: CommandPhase::Finished, ..pre }
                    &&& failed(step, ErrorKind::Vm, "VM execution timed out"@)
                } else if VM_TIMEOUT - elapsed_millis < POLL_INTERVAL {
                    &&& post == CommandFlow { phase: CommandPhase::LastPause, ..pre }
                    &&& step matches Step::Do(CommandAction::Sleep { millis }) && millis
                        == VM_TIMEOUT - elapsed_millis
                } else {
                    &&& post == CommandFlow { phase: CommandPhase::Sleep, ..pre }
                    &&& step matches Step::Do(CommandAction::Sleep { millis }) && millis
                        == POLL_INTERVAL
                },
            },
            (CommandPhase::Sleep, CommandEvent::Slept) => Self::polls(pre, post, step),
            (CommandPhase::LastPause, CommandEvent::Slept) => {
                &&& post == CommandFlow { phase: CommandPhase::Finished, ..pre }
                &&& failed(step, ErrorKind::Vm, "VM execution timed out"@)
            },
            _ => post == pre && step is Unexpected,
        }
    }

    fn pass_on(&mut self, error: BuildError) -> (r: CommandStep)
        ensures
            Self::passes_on(*old(self), error, *final(self), r),
    {
        self.phase = CommandPhase::Finished;
        Step::Return(Err(error))
    }

    fn poll(&mut self) -> (r: CommandStep)
        ensures
            Self::polls(*old(self), *final(self), r),
    {
        self.phase = CommandPhase::Poll;
        Step::Do(CommandAction::Poll)
    }

    /// Takes the outcome of the last action and says what to do next. Failures to limit the
    /// resources of the VM do not end the workflow.
    pub fn step(&mut self, event: CommandEvent) -> (r: CommandStep)
        ensures
            Self::transition(*old(self), event, *final(self), r),
    {
        match (self.phase, event) {
            (CommandPhase::Begin, CommandEvent::Start) => {
                self.phase = CommandPhase::FindKernel;
                Step::Do(CommandAction::FindKernel)
            },
            (CommandPhase::FindKernel, CommandEvent::Found(Ok(path))) => {
                self.kernel = path;
                self.phase = CommandPhase::BuildInitramfs;
                Step::Do(CommandAction::BuildInitramfs { command: self.command.clone() })
            },
            (CommandPhase::FindKernel, CommandEvent::Found(Err(e))) => self.pass_on(e),
            (CommandPhase::BuildInitramfs, CommandEvent::Found(Ok(path))) => {
                self.initramfs = path;
                self.phase = CommandPhase::FindHypervisor;
                Step::Do(CommandAction::FindHypervisor)
            },
            (CommandPhase::BuildInitramfs, CommandEvent::Found(Err(e))) => self.pass_on(e),
            (CommandPhase::FindHypervisor, CommandEvent::Found(Ok(path))) => {
                let socket = join_path(self.vm_dir.as_str(), "ch.sock");
                let args = list_build_vm_args(
                    self.kernel.as_str(),
                    self.initramfs.as_str(),
                    self.rootdisk.as_str(),
                    socket.as_str(),
                );
                self.phase = CommandPhase::Spawn;
                Step::Do(CommandAction::Spawn { program: path, args })
            },
            (CommandPhase::FindHypervisor, CommandEvent::Found(Err(e))) => self.pass_on(e),
            (CommandPhase::Spawn, CommandEvent::Spawned(Err(e))) => {
                self.phase = CommandPhase::Finished;
                fail(ErrorKind::Vm, "Failed to start cloud-hypervisor: ", e.as_str())
            },
            (CommandPhase::Spawn, CommandEvent::Spawned(Ok(pid))) => {
                self.pid = pid;
                match copy_text(&self.cgroup) {
                    Some(id) => {
                        self.phase = CommandPhase::CreateCgroup;
                        Step::Do(CommandAction::CreateCgroup { id })
                    },
                    None => self.poll(),
                }
            },
            (CommandPhase::CreateCgroup, CommandEvent::Done(created)) => match (
                copy_text(&self.cgroup),
                created,
            ) {
                (Some(id), Ok(_)) => {
                    self.phase = CommandPhase::SetCpu;
                    Step::Do(CommandAction::SetCpuLimit { id, percent: BUILD_CPU_PERCENT })
                },
                _ => self.poll(),
            },
            (CommandPhase::SetCpu, CommandEvent::Done(_)) => match copy_text(&self.cgroup) {
                Some(id) => {
                    self.phase = CommandPhase::SetMemory;
                    Step::Do(CommandAction::SetMemoryLimit { id, bytes: BUILD_MEMORY })
                },
                None => self.poll(),
            },
            (CommandPhase::SetMemory, CommandEvent::Done(_)) => match copy_text(&self.cgroup) {
                Some(id) => {
                    self.phase = CommandPhase::AddProcess;
                    Step::Do(CommandAction::AddProcess { id, pid: self.pid })
                },
                None => self.poll(),
            },
            (CommandPhase::AddProcess, CommandEvent::Done(_)) => self.poll(),
            (CommandPhase::Poll, CommandEvent::Polled { ended, elapsed_millis }) => match ended {
                Some(code) => {
                    self.phase = CommandPhase::Finished;
                    Step::Return(Ok((exit_code_of(code), Some(self.pid))))
                },
                None => {
                    if elapsed_millis >= VM_TIMEOUT {
                        self.phase = CommandPhase::Finished;
                        fail_plain(ErrorKind::Vm, "VM execution timed out")
                    } else if VM_TIMEOUT - elapsed_millis < POLL_INTERVAL {
                        self.phase = CommandPhase::LastPause;
                        Step::Do(CommandAction::Sleep { millis: VM_TIMEOUT - elapsed_millis })
                    } else {
                        self.phase = CommandPhase::Sleep;
                        Step::Do(CommandAction::Sleep { millis: POLL_INTERVAL })
                    }
                },
            },
            (CommandPhase::Sleep, CommandEvent::Slept) => self.poll(),
            (CommandPhase::LastPause, CommandEvent::Slept) => {
                self.phase = CommandPhase::Finished;
                fail_plain(ErrorKind::Vm, "VM execution timed out")
            },
            _ => Step::Unexpected,
        }
    }
}

/// How far a VM with a read-only root file system has come.
#[derive(Clone, Copy, PartialEq, Eq, Structural)]
pub enum VmPhase {
    Begin,
    BuildInitramfs,
    FindKernel,
    CreateDir,
    FindHypervisor,
    Spawn,
    Wait,
    Kill,
    RemoveDir,
    Finished,
}

/// The answer of a VM with a read-only root file system to an event: the exit code.
pub type VmStep = Step<CommandAction, i32, BuildError>;

/// Workflow that runs a command in a VM with a read-only root file system.
pub struct VmFlow {
    pub command: String,
    pub temp_dir: String,
    pub vm_dir: String,
    pub initramfs: String,
    pub kernel: String,
    pub code: i32,
    pub phase: VmPhase,
}

impl VmFlow {
    /// The arguments of the hypervisor.
    pub open spec fn args(self) -> Seq<Seq<char>> {
        readonly_vm_args(
            joined_path(self.temp_dir@, "temp_root.sqfs"@),
            self.kernel@,
            self.initramfs@,
            joined_path(self.vm_dir@, "ch.sock"@),
        )
    }

    /// The workflow passes an error on.
    pub open spec fn passes_on(pre: VmFlow, error: BuildError, post: VmFlow, step: VmStep) -> bool {
        &&& post == VmFlow { phase: VmPhase::Finished, ..pre }
        &&& step == VmStep::Return(Err(error))
    }

    /// The workflow ends with an error.
    pub open spec fn fails(
        pre: VmFlow,
        kind: ErrorKind,
        text: Seq<char>,
        post: VmFlow,
        step: VmStep,
    ) -> bool {
        &&& post == VmFlow { phase: VmPhase::Finished, ..pre }
        &&& failed(step, kind, text)
    }

    /// How the workflow answers an event.
    pub open spec fn transition(
        pre: VmFlow,
        event: CommandEvent,
        post: VmFlow,
        step: VmStep,
    ) -> bool {
        match (pre.phase, event) {
            (VmPhase::Begin, CommandEvent::Start) => {
                &&& post == VmFlow { phase: VmPhase::BuildInitramfs, ..pre }
                &&& step matches Step::Do(CommandAction::BuildInitramfs { command }) && command@
                    == pre.command@
            },
            (VmPhase::BuildInitramfs, CommandEvent::Found(Ok(path))) => {
                &&& post == VmFlow { initramfs: path, phase: VmPhase::FindKernel, ..pre }
                &&& step matches Step::Do(CommandAction::FindKernel)
            },
            (VmPhase::BuildInitramfs, CommandEvent::Found(Err(e))) => Self::passes_on(
                pre,
                e,
                post,
                step,
            ),
            (VmPhase::FindKernel, CommandEvent::Found(Ok(path))) => {
                &&& post == VmFlow { kernel: path, phase: VmPhase::CreateDir, ..pre }
                &&& step matches Step::Do(CommandAction::CreateDir { path: dir }) && dir@
                    == pre.vm_dir@
            },
            (VmPhase::FindKernel, CommandEvent::Found(Err(e))) => Self::passes_on(
                pre,
                e,
                post,
                step,
            ),
            (VmPhase::CreateDir, CommandEvent::Done(Err(e))) => Self::fails(
                pre,
                ErrorKind::Io,
                e@,
                post,
                step,
            ),
            (VmPhase::CreateDir, CommandEvent::Done(Ok(_))) => {
                &&& post == VmFlow { phase: VmPhase::FindHypervisor, ..pre }
                &&& step matches Step::Do(CommandAction::FindHypervisor)
            },
            (VmPhase::FindHypervisor, CommandEvent::Found(Ok(path))) => {
                &&& post == VmFlow { phase: VmPhase::Spawn, ..pre }
                &&& step matches Step::Do(CommandAction::Spawn { program, args }) && program == path
                    && texts(args) == pre.args()
            },
            (VmPhase::FindHypervisor, CommandEvent::Found(Err(e))) => Self::passes_on(
                pre,
                e,
                post,
                step,
            ),
            (VmPhase::Spawn, CommandEvent::Spawned(Err(e))) => Self::fails(
                pre,
                ErrorKind::Vm,
                "Failed to start Cloud Hypervisor: "@ + e@,
                post,
                step,
            ),
            (VmPhase::Spawn, CommandEvent::Spawned(Ok(_))) => {
                &&& post == VmFlow { phase: VmPhase::Wait, ..pre }
                &&& step matches Step::Do(CommandAction::Wait { limit_millis }) && limit_millis
                    == VM_TIMEOUT
            },
            (VmPhase::Wait, CommandEvent::Ended(Err(e))) => Self::fails(
                pre,
                ErrorKind::Vm,
                "VM process error: "@ + e@,
                post,
                step,
            ),
            (VmPhase::Wait, CommandEvent::TimedOut) => {
                &&& post == VmFlow { phase: VmPhase::Kill, ..pre }
                &&& step matches Step::Do(CommandAction::Kill)
            },
            (VmPhase::Kill, CommandEvent::Done(_)) => Self::fails(
                pre,
                ErrorKind::Vm,
                "VM execution timed out"@,
                post,
                step,
            ),
            (VmPhase::Wait, CommandEvent::Ended(Ok(code))) => {
                &&& post == VmFlow { code: exit_code(code), phase: VmPhase::RemoveDir, ..pre }
                &&& step matches Step::Do(CommandAction::RemoveDir { path }) && path@ == pre.vm_dir@
            },
            (VmPhase::RemoveDir, CommandEvent::Done(_)) => {
                &&& post == VmFlow { phase: VmPhase::Finished, ..pre }
                &&& step == VmStep::Return(Ok(pre.code))
            },
            _ => post == pre && step is Unexpected,
        }
    }

    fn pass_on(&mut self, error: BuildError) -> (r: VmStep)
        ensures
            Self::passes_on(*old(self), error, *final(self), r),
    {
        self.phase = VmPhase::Finished;
        Step::Return(Err(error))
    }

    /// Takes the outcome of the last action and says what to do next; `runner` is the engine that
    /// began the workflow.
    pub fn step(&mut self, runner: &BuildRunner, event: CommandEvent) -> (r: VmStep)
        ensures
            Self::transition(*old(self), event, *final(self), r),
    {
        match (self.phase, event) {
            (VmPhase::Begin, CommandEvent::Start) => {
                self.phase = VmPhase::BuildInitramfs;
                Step::Do(CommandAction::BuildInitramfs { command: self.command.clone() })
            },
            (VmPhase::BuildInitramfs, CommandEvent::Found(Ok(path))) => {
                self.initramfs = path;
                self.phase = VmPhase::FindKernel;
                Step::Do(CommandAction::FindKernel)
            },
            (VmPhase::BuildInitramfs, CommandEvent::Found(Err(e))) => self.pass_on(e),
            (VmPhase::FindKernel, CommandEvent::Found(Ok(path))) => {
                self.kernel = path;
                self.phase = VmPhase::CreateDir;
                Step::Do(CommandAction::CreateDir { path: self.vm_dir.clone() })
            },
            (VmPhase::FindKernel, CommandEvent::Found(Err(e))) => self.pass_on(e),
            (VmPhase::CreateDir, CommandEvent::Done(Err(e))) => {
                self.phase = VmPhase::Finished;
                fail_plain(ErrorKind::Io, e.as_str())
            },
            (VmPhase::CreateDir, CommandEvent::Done(Ok(_))) => {
                self.phase = VmPhase::FindHypervisor;
                Step::Do(CommandAction::FindHypervisor)
            },
            (VmPhase::FindHypervisor, CommandEvent::Found(Ok(path))) => {
                let rootfs = join_path(self.temp_dir.as_str(), "temp_root.sqfs");
                let socket = join_path(self.vm_dir.as_str(), "ch.sock");
                let args = runner.build_ch_args(
                    rootfs.as_str(),
                    self.kernel.as_str(),
                    self.initramfs.as_str(),
                    socket.as_str(),
                );
                self.phase = VmPhase::Spawn;
                Step::Do(CommandAction::Spawn { program: path, args })
            },
            (VmPhase::FindHypervisor, CommandEvent::Found(Err(e))) => self.pass_on(e),
            (VmPhase::Spawn, CommandEvent::Spawned(Err(e))) => {
                self.phase = VmPhase::Finished;
                fail(ErrorKind::Vm, "Failed to start Cloud Hypervisor: ", e.as_str())
            },
            (VmPhase::Spawn, CommandEvent::Spawned(Ok(_))) => {
                self.phase = VmPhase::Wait;
                Step::Do(CommandAction::Wait { limit_millis: VM_TIMEOUT })
            },
            (VmPhase::Wait, CommandEvent::Ended(Err(e))) => {
                self.phase = VmPhase::Finished;
                fail(ErrorKind::Vm, "VM process error: ", e.as_str())
            },
            (VmPhase::Wait, CommandEvent::TimedOut) => {
                self.phase = VmPhase::Kill;
                Step::Do(CommandAction::Kill)
            },
            (VmPhase::Kill, CommandEvent::Done(_)) => {
                self.phase = VmPhase::Finished;
                fail_plain(ErrorKind::Vm, "VM execution timed out")
            },
            (VmPhase::Wait, CommandEvent::Ended(Ok(code))) => {
                self.code = exit_code_of(code);
                self.phase = VmPhase::RemoveDir;
                Step::Do(CommandAction::RemoveDir { path: self.vm_dir.clone() })
            },
            (VmPhase::RemoveDir, CommandEvent::Done(_)) => {
                self.phase = VmPhase::Finished;
                Step::Return(Ok(self.code))
            },
            _ => Step::Unexpected,
        }
    }
}

impl BuildRunner {
    /// Begins to run a command in a VM on a disk. If the engine limits its VMs and the control
    /// group has an id, that id, without the prefix of build snapshots, names the group that the VM
    /// runs in.
    pub fn run_command_in_ch(
        &self,
        rootdisk: &str,
        command: &str,
        vm_dir: &str,
        cgroup_vm_id: Option<&str>,
    ) -> (r: CommandFlow)
        ensures
            r.rootdisk@ == rootdisk@,
            r.command@ == command@,
            r.vm_dir@ == vm_dir@,
            text_view(r.cgroup) == (if self.cgroups is Some && cgroup_vm_id is Some {
                Some(without_prefixes(cgroup_vm_id->0@, "vyoma-build-"@))
            } else {
                None
            }),
            r.phase == CommandPhase::Begin,
    {
        let cgroup = match (&self.cgroups, cgroup_vm_id) {
            (Some(_), Some(id)) => Some(trim_start_matches(id, "vyoma-build-")),
            _ => None,
        };
        CommandFlow {
            rootdisk: owned(rootdisk),
            command: owned(command),
            vm_dir: owned(vm_dir),
            cgroup,
            kernel: String::new(),
            initramfs: String::new(),
            pid: 0,
            phase: CommandPhase::Begin,
        }
    }

    /// Begins to run a command in a VM with a read-only root file system, for the build process
    /// `pid`.
    pub fn execute_in_vm(&self, command: &str, pid: u32) -> (r: VmFlow)
        ensures
            r.command@ == command@,
            r.temp_dir@ == self.temp_dir@,
            r.vm_dir@ == joined_path(self.temp_dir@, "build-"@ + decimal(pid as nat)),
            r.phase == VmPhase::Begin,
    {
        let name = concat2("build-", format_u64(pid as u64).as_str());
        VmFlow {
            command: owned(command),
            temp_dir: self.temp_dir.clone(),
            vm_dir: join_path(self.temp_dir.as_str(), name.as_str()),
            initramfs: String::new(),
            kernel: String::new(),
            code: 0,
            phase: VmPhase::Begin,
        }
    }
}

/// Trouble with the control group never ends the run of a VM: from any of the steps that limit
/// its resources the workflow goes on, and in the end asks whether the VM has ended.
pub proof fn limits_are_best_effort(
    pre: CommandFlow,
    outcome: Result<(), String>,
    post: CommandFlow,
    step: CommandStep,
)
    requires
        CommandFlow::transition(pre, CommandEvent::Done(outcome), post, step),
        pre.phase == CommandPhase::CreateCgroup || pre.phase == CommandPhase::SetCpu || pre.phase
            == CommandPhase::SetMemory || pre.phase == CommandPhase::AddProcess,
    ensures
        step is Do,
        pre.phase == CommandPhase::AddProcess ==> post.phase == CommandPhase::Poll,
{
}

/// A VM that has not ended is waited for until the time is up, and no pause goes beyond that. When
/// the time is up the workflow returns; it does not ask to end the VM.
pub proof fn vm_runs_until_the_time_is_up(
    pre: CommandFlow,
    elapsed_millis: u64,
    post: CommandFlow,
    step: CommandStep,
)
    requires
        pre.phase == CommandPhase::Poll,
        CommandFlow::transition(
            pre,
            (CommandEvent::Polled { ended: None, elapsed_millis }),
            post,
            step,
        ),
    ensures
        step is Return <==> elapsed_millis >= VM_TIMEOUT,
        elapsed_millis < VM_TIMEOUT ==> (step matches Step::Do(CommandAction::Sleep { millis }) && 0
            < millis <= POLL_INTERVAL && elapsed_millis + millis <= VM_TIMEOUT),
{
}

} // verus!
