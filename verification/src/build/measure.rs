//! Measuring the boot of an image.
use std::collections::HashMap;
use vstd::prelude::*;
use vstd::string::*;
use crate::build::command::POLL_INTERVAL;
use crate::build::error::{fail, fail_plain, failed, BuildError, ErrorKind};
use crate::build::runner::BuildRunner;
use crate::flow::{is_run, lemma_shorter_run, Step};
use crate::image::text_view;
use crate::number::{decimal, format_u64};
use crate::path::{choose_present, first_present, join_path, joined_path};
use crate::text::{concat2, concat3, owned, texts};

verus! {

/// The name of the VM that is measured.
pub const MEASURE_VM: &'static str = "measure-vm";

/// How long the socket of the hypervisor may take to appear, in nanoseconds.
pub const SOCKET_TIMEOUT_NANOS: u64 = 10000000000;

/// How long the VM may take to boot, in milliseconds.
pub const BOOT_TIMEOUT: u64 = 30000;

/// How long the measurements take to settle, in milliseconds.
pub const SETTLE_TIME: u64 = 5000;

/// Where the hypervisor takes the request to create the VM.
pub const VM_CREATE_URL: &'static str = "http://localhost/api/v1/vm.create";

/// Where the hypervisor takes the request to boot the VM.
pub const VM_BOOT_URL: &'static str = "http://localhost/api/v1/vm.boot";

/// The request to boot the VM, in JSON.
pub const VM_BOOT_BODY: &'static str = "{}";

/// What is asked of the hypervisor when the VM is created.
pub struct MeasureVmConfig {
    pub boot_vcpus: u32,
    pub max_vcpus: u32,
    pub memory_size: u64,
    pub memory_shared: bool,
    pub kernel: String,
    pub cmdline: String,
    pub disk_path: String,
    pub disk_readonly: bool,
    pub tpm_socket: String,
}

/// Where firmware for VMs may be.
pub open spec fn firmware_sites() -> Seq<Seq<char>> {
    seq![
        "/usr/share/OVMF/OVMF_CODE.fd"@,
        "/usr/share/qemu/ovmf-x64/OVMF_CODE.fd"@,
        "/usr/share/edk2/ovmf/x64/OVMF_CODE.fd"@,
    ]
}

/// Where firmware for VMs may be.
pub fn firmware_candidates() -> (r: Vec<String>)
    ensures
        texts(r) == firmware_sites(),
{
    let r: Vec<String> = vec![
        owned("/usr/share/OVMF/OVMF_CODE.fd"),
        owned("/usr/share/qemu/ovmf-x64/OVMF_CODE.fd"),
        owned("/usr/share/edk2/ovmf/x64/OVMF_CODE.fd"),
    ];
    assert(texts(r) =~= firmware_sites());
    r
}

/// The registers that make up the policy of an image.
pub open spec fn policy_registers() -> Seq<u32> {
    seq![0u32, 1u32, 4u32, 5u32, 7u32, 9u32, 10u32, 14u32]
}

/// The registers that make up the policy of an image.
pub fn list_policy_registers() -> (r: Vec<u32>)
    ensures
        r@ == policy_registers(),
{
    let r: Vec<u32> = vec![0u32, 1u32, 4u32, 5u32, 7u32, 9u32, 10u32, 14u32];
    assert(r@ =~= policy_registers());
    r
}

/// The arguments of the hypervisor for a VM that is measured.
pub open spec fn measure_vm_args(
    kernel: Seq<char>,
    socket: Seq<char>,
    tpm_socket: Seq<char>,
    rootfs: Seq<char>,
    firmware: Option<Seq<char>>,
) -> Seq<Seq<char>> {
    seq![
        "--kernel"@,
        kernel,
        "--memory"@,
        "size=512M"@,
        "--cpus"@,
        "boot=1"@,
        "--console"@,
        "off"@,
        "--serial"@,
        "tty"@,
        "--api-socket"@,
        socket,
        "--rng"@,
        "src=/dev/urandom"@,
        "--tpm"@,
        "socket="@ + tpm_socket,
        "--disk"@,
        "path="@ + rootfs + ",readonly=on"@,
    ] + match firmware {
        Some(path) => seq!["--firmware"@, path],
        None => seq![],
    }
}

fn list_measure_vm_args(
    kernel: &str,
    socket: &str,
    tpm_socket: &str,
    rootfs: &str,
    firmware: Option<String>,
) -> (r: Vec<String>)
    ensures
        texts(r) == measure_vm_args(kernel@, socket@, tpm_socket@, rootfs@, text_view(firmware)),
{
    let mut r: Vec<String> = vec![
        owned("--kernel"),
        owned(kernel),
        owned("--memory"),
        owned("size=512M"),
        owned("--cpus"),
        owned("boot=1"),
        owned("--console"),
        owned("off"),
        owned("--serial"),
        owned("tty"),
        owned("--api-socket"),
        owned(socket),
        owned("--rng"),
        owned("src=/dev/urandom"),
        owned("--tpm"),
        concat2("socket=", tpm_socket),
        owned("--disk"),
        concat3("path=", rootfs, ",readonly=on"),
    ];
    let ghost view = text_view(firmware);
    match firmware {
        Some(path) => {
            r.push(owned("--firmware"));
            r.push(path);
        },
        None => {},
    }
    assert(texts(r) =~= measure_vm_args(kernel@, socket@, tpm_socket@, rootfs@, view));
    r
}

/// How far a measurement has come.
#[derive(Clone, Copy, PartialEq, Eq, Structural)]
pub enum MeasurePhase {
    Begin,
    CreateDir,
    FindKernel,
    CreateVtpm,
    StartVtpm,
    FindFirmware,
    FindHypervisor,
    Spawn,
    ProbeSocket,
    Sleep,
    GiveUp,
    OpenClient,
    Boot,
    Settle,
    ReadPcrs,
    Kill,
    Reap,
    StopVtpm,
    RemoveDir,
    Finished,
}

/// What a measurement asks for.
pub enum MeasureAction {
    /// Create the directory and its parents.
    CreateDir { path: String },
    /// Find the kernel.
    FindKernel,
    /// Create a virtual TPM for a VM in a directory.
    CreateVtpm { vm: String, dir: String },
    /// Start the virtual TPM.
    StartVtpm,
    /// Find out which of the paths exist.
    ProbeAll { paths: Vec<String> },
    /// Find the hypervisor.
    FindHypervisor,
    /// Start a program.
    Spawn { program: String, args: Vec<String> },
    /// Find out whether the path exists.
    Probe { path: String },
    /// Wait so many milliseconds.
    Sleep { millis: u64 },
    /// Open a client of the socket.
    OpenClient { socket: String },
    /// Create and boot the VM, for so many milliseconds at most.
    Boot { config: MeasureVmConfig, limit_millis: u64 },
    /// Read registers of the virtual TPM.
    ReadPcrs { indices: Vec<u32> },
    /// End the program.
    Kill,
    /// Wait until the program has ended.
    Reap,
    /// Stop the virtual TPM.
    StopVtpm,
    /// Remove the directory and everything in it.
    RemoveDir { path: String },
}

/// What happened to the last action of a measurement.
pub enum MeasureEvent {
    Start,
    Done(Result<(), String>),
    /// The path of the file that was looked for.
    Found(Result<String, BuildError>),
    /// The socket of the virtual TPM.
    VtpmStarted(Result<String, String>),
    /// Which of the paths exist.
    ProbedAll(Vec<bool>),
    /// Whether the path exists, and the nanoseconds since it was first asked for.
    Probed { present: bool, elapsed_nanos: u64 },
    Slept,
    /// The request to boot has been made; how it went does not matter.
    Booted,
    /// The value of each register.
    Pcrs(Result<HashMap<u32, String>, String>),
}

/// The answer of a measurement to an event.
pub type MeasureStep = Step<MeasureAction, HashMap<u32, String>, BuildError>;

/// Workflow that boots an image with a virtual TPM and reads what the boot has measured.
pub struct MeasureFlow {
    pub temp_dir: String,
    pub rootfs: String,
    pub vm_dir: String,
    pub kernel: String,
    pub tpm_socket: String,
    pub firmware: Option<String>,
    /// The result, once it is known.
    pub outcome: Option<Result<HashMap<u32, String>, BuildError>>,
    pub phase: MeasurePhase,
}

impl MeasureVmConfig {
    /// The VM that is measured.
    pub open spec fn measures(
        self,
        kernel: Seq<char>,
        rootfs: Seq<char>,
        tpm_socket: Seq<char>,
    ) -> bool {
        &&& self.boot_vcpus == 1
        &&& self.max_vcpus == 1
        &&& self.memory_size == 536870912
        &&& self.memory_shared
        &&& self.kernel@ == kernel
        &&& self.cmdline@ == "console=ttyS0 reboot=k panic=1 root=/dev/vda rw init=/bin/sh"@
        &&& self.disk_path@ == rootfs
        &&& self.disk_readonly
        &&& self.tpm_socket@ == tpm_socket
    }
}

/// What stands for a character in a JSON string. Quotes, backslashes and control characters are
/// escaped, those with a short form by it and the others by their code in lower case.
pub open spec fn json_char(c: char) -> Seq<char> {
    if c == '"' || c == '\\' {
        seq!['\\', c]
    } else if c == '\u{8}' {
        "\\b"@
    } else if c == '\t' {
        "\\t"@
    } else if c == '\n' {
        "\\n"@
    } else if c == '\u{c}' {
        "\\f"@
    } else if c == '\r' {
        "\\r"@
    } else if (c as int) < 0x20 {
        "\\u00"@ + seq![
            "0123456789abcdef"@[c as int / 16],
            "0123456789abcdef"@[c as int % 16],
        ]
    } else {
        seq![c]
    }
}

/// What stands for a text between the quotes of a JSON string.
pub open spec fn json_text(s: Seq<char>) -> Seq<char>
    decreases s.len(),
{
    if s.len() == 0 {
        Seq::empty()
    } else {
        json_text(s.drop_last()) + json_char(s.last())
    }
}

/// A text as a JSON string, in double quotes.
pub open spec fn json_string(s: Seq<char>) -> Seq<char> {
    "\""@ + json_text(s) + "\""@
}

/// Formats a `Value::String` of serde_json with the `Display` implementation of `Value`. It writes
/// the text in double quotes, without white space around it, and escapes quotes, backslashes and
/// the characters below the space; every other character is written as it is.
#[verifier::external_body]
fn write_json_string(s: &str) -> (r: String)
    ensures
        r@ == json_string(s@),
{
    serde_json::Value::String(s.to_owned()).to_string()
}

/// `true` or `false`.
pub open spec fn json_bool(b: bool) -> Seq<char> {
    if b {
        "true"@
    } else {
        "false"@
    }
}

/// `true` or `false`.
fn write_json_bool(b: bool) -> (r: &'static str)
    ensures
        r@ == json_bool(b),
{
    if b {
        "true"
    } else {
        "false"
    }
}

impl MeasureVmConfig {
    /// The request to create the VM, in JSON.
    pub open spec fn json(self) -> Seq<char> {
        "{\"disks\":[{\"path\":"@ + json_string(self.disk_path@) + ",\"readonly\":"@ + json_bool(
            self.disk_readonly,
        ) + "}],\"memory\":{\"shared\":"@ + json_bool(self.memory_shared) + ",\"size\":"@ + decimal(
            self.memory_size as nat,
        ) + "},\"payload\":{\"cmdline\":"@ + json_string(self.cmdline@) + ",\"kernel\":"@
            + json_string(self.kernel@) + "},\"tpm\":{\"socket\":"@ + json_string(self.tpm_socket@)
            + "},\"vcpu\":{\"boot_vcpus\":"@ + decimal(self.boot_vcpus as nat)
            + ",\"max_vcpus\":"@ + decimal(self.max_vcpus as nat) + "}}"@
    }

    /// The request to create the VM, in JSON.
    pub fn request_body(&self) -> (r: String)
        ensures
            r@ == self.json(),
    {
        let mut r = owned("{\"disks\":[{\"path\":");
        r.append(write_json_string(self.disk_path.as_str()).as_str());
        r.append(",\"readonly\":");
        r.append(write_json_bool(self.disk_readonly));
        r.append("}],\"memory\":{\"shared\":");
        r.append(write_json_bool(self.memory_shared));
        r.append(",\"size\":");
        r.append(format_u64(self.memory_size).as_str());
        r.append("},\"payload\":{\"cmdline\":");
        r.append(write_json_string(self.cmdline.as_str()).as_str());
        r.append(",\"kernel\":");
        r.append(write_json_string(self.kernel.as_str()).as_str());
        r.append("},\"tpm\":{\"socket\":");
        r.append(write_json_string(self.tpm_socket.as_str()).as_str());
        r.append("},\"vcpu\":{\"boot_vcpus\":");
        r.append(format_u64(self.boot_vcpus as u64).as_str());
        r.append(",\"max_vcpus\":");
        r.append(format_u64(self.max_vcpus as u64).as_str());
        r.append("}}");
        r
    }
}

impl MeasureFlow {
    /// The socket of the hypervisor.
    pub open spec fn socket(self) -> Seq<char> {
        joined_path(self.vm_dir@, "ch.sock"@)
    }

    /// The workflow ends with an error of the execution.
    pub open spec fn fails(
        pre: MeasureFlow,
        text: Seq<char>,
        post: MeasureFlow,
        step: MeasureStep,
    ) -> bool {
        &&& post == MeasureFlow { phase: MeasurePhase::Finished, ..pre }
        &&& failed(step, ErrorKind::Execution, text)
    }

    /// The workflow ends the VM, and will then return the outcome.
    pub open spec fn ends_vm(pre: MeasureFlow, post: MeasureFlow, step: MeasureStep) -> bool {
        &&& post == MeasureFlow { outcome: post.outcome, phase: MeasurePhase::Kill, ..pre }
        &&& step matches Step::Do(MeasureAction::Kill)
    }

    /// The workflow ends the VM, and will then return this error of the execution.
    pub open spec fn ends_vm_with(
        pre: MeasureFlow,
        text: Seq<char>,
        post: MeasureFlow,
        step: MeasureStep,
    ) -> bool {
        &&& Self::ends_vm(pre, post, step)
        &&& post.outcome matches Some(Err(error)) && error.says(ErrorKind::Execution, text)
    }

    /// The workflow looks for the socket of the hypervisor.
    pub open spec fn looks_for_socket(
        pre: MeasureFlow,
        post: MeasureFlow,
        step: MeasureStep,
    ) -> bool {
        &&& post == MeasureFlow { phase: MeasurePhase::ProbeSocket, ..pre }
        &&& step matches Step::Do(MeasureAction::Probe { path }) && path@ == pre.socket()
    }

    /// How the workflow answers an event.
    pub open spec fn transition(
        pre: MeasureFlow,
        event: MeasureEvent,
        post: MeasureFlow,
        step: MeasureStep,
    ) -> bool {
        match (pre.phase, event) {
            (MeasurePhase::Begin, MeasureEvent::Start) => {
                &&& post == MeasureFlow { phase: MeasurePhase::CreateDir, ..pre }
                &&& step matches Step::Do(MeasureAction::CreateDir { path }) && path@ == pre.vm_dir@
            },
            (MeasurePhase::CreateDir, MeasureEvent::Done(Err(e))) => Self::fails(
                pre,
                "Failed to create measure VM dir: "@ + e@,
                post,
                step,
            ),
            (MeasurePhase::CreateDir, MeasureEvent::Done(Ok(_))) => {
                &&& post == MeasureFlow { phase: MeasurePhase::FindKernel, ..pre }
                &&& step matches Step::Do(MeasureAction::FindKernel)
            },
            (MeasurePhase::FindKernel, MeasureEvent::Found(Err(e))) => Self::fails(
                pre,
                "Kernel not found: "@ + e.sentence(),
                post,
                step,
            ),
            (MeasurePhase::FindKernel, MeasureEvent::Found(Ok(path))) => {
                &&& post == MeasureFlow { kernel: path, phase: MeasurePhase::CreateVtpm, ..pre }
                &&& step matches Step::Do(MeasureAction::CreateVtpm { vm, dir }) && vm@
                    == MEASURE_VM@ && dir@ == pre.temp_dir@
            },
            (MeasurePhase::CreateVtpm, MeasureEvent::Done(Err(e))) => Self::fails(
                pre,
                "Failed to create vTPM: "@ + e@,
                post,
                step,
            ),
            (MeasurePhase::CreateVtpm, MeasureEvent::Done(Ok(_))) => {
                &&& post == MeasureFlow { phase: MeasurePhase::StartVtpm, ..pre }
                &&& step matches Step::Do(MeasureAction::StartVtpm)
            },
            (MeasurePhase::StartVtpm, MeasureEvent::VtpmStarted(Err(e))) => Self::fails(
                pre,
                "Failed to start vTPM: "@ + e@,
                post,
                step,
            ),
            (MeasurePhase::StartVtpm, MeasureEvent::VtpmStarted(Ok(socket))) => {
                &&& post == MeasureFlow {
                    tpm_socket: socket,
                    phase: MeasurePhase::FindFirmware,
                    ..pre
                }
                &&& step matches Step::Do(MeasureAction::ProbeAll { paths }) && texts(paths)
                    == firmware_sites()
            },
            (MeasurePhase::FindFirmware, MeasureEvent::ProbedAll(present)) => {
                &&& post == MeasureFlow {
                    firmware: post.firmware,
                    phase: MeasurePhase::FindHypervisor,
                    ..pre
                }
                &&& text_view(post.firmware) == first_present(firmware_sites(), present@)
                &&& step matches Step::Do(MeasureAction::FindHypervisor)
            },
            (MeasurePhase::FindHypervisor, MeasureEvent::Found(Err(e))) => {
                &&& post == MeasureFlow { phase: MeasurePhase::Finished, ..pre }
                &&& step == MeasureStep::Return(Err(e))
            },
            (MeasurePhase::FindHypervisor, MeasureEvent::Found(Ok(path))) => {
                &&& post == MeasureFlow {
                    firmware: None,
                    phase: MeasurePhase::Spawn,
                    ..pre
                }
                &&& step matches Step::Do(MeasureAction::Spawn { program, args }) && program == path
                    && texts(args) == measure_vm_args(
                    pre.kernel@,
                    pre.socket(),
                    pre.tpm_socket@,
                    pre.rootfs@,
                    text_view(pre.firmware),
                )
            },
            (MeasurePhase::Spawn, MeasureEvent::Done(Err(e))) => Self::fails(
                pre,
                "Failed to start cloud-hypervisor: "@ + e@,
                post,
                step,
            ),
            (MeasurePhase::Spawn, MeasureEvent::Done(Ok(_))) => Self::looks_for_socket(
                pre,
                post,
                step,
            ),
            (MeasurePhase::ProbeSocket, MeasureEvent::Probed { present, elapsed_nanos }) => {
                if present {
                    &&& post == MeasureFlow { phase: MeasurePhase::OpenClient, ..pre }
                    &&& step matches Step::Do(MeasureAction::OpenClient { socket }) && socket@
                        == pre.socket()
                } else if elapsed_nanos > SOCKET_TIMEOUT_NANOS {
                    &&& post == MeasureFlow { phase: MeasurePhase::GiveUp, ..pre }
                    &&& step matches Step::Do(MeasureAction::Kill)
                } else {
                    &&& post == MeasureFlow { phase: MeasurePhase::Sleep, ..pre }
                    &&& step matches Step::Do(MeasureAction::Sleep { millis }) && millis
                        == POLL_INTERVAL
                }
            },
            (MeasurePhase::Sleep, MeasureEvent::Slept) => Self::looks_for_socket(pre, post, step),
            (MeasurePhase::GiveUp, MeasureEvent::Done(_)) => Self::fails(
                pre,
                "Timed out waiting for Cloud Hypervisor socket"@,
                post,
                step,
            ),
            (MeasurePhase::OpenClient, MeasureEvent::Done(Err(e))) => Self::ends_vm_with(
                pre,
                "Failed to build HTTP client: "@ + e@,
                post,
                step,
            ),
            (MeasurePhase::OpenClient, MeasureEvent::Done(Ok(_))) => {
                &&& post == MeasureFlow { phase: MeasurePhase::Boot, ..pre }
                &&& step matches Step::Do(MeasureAction::Boot { config, limit_millis })
                    && limit_millis == BOOT_TIMEOUT && config.measures(
                    pre.kernel@,
                    pre.rootfs@,
                    pre.tpm_socket@,
                )
            },
            (MeasurePhase::Boot, MeasureEvent::Booted) => {
                &&& post == MeasureFlow { phase: MeasurePhase::Settle, ..pre }
                &&& step matches Step::Do(MeasureAction::Sleep { millis }) && millis == SETTLE_TIME
            },
            (MeasurePhase::Settle, MeasureEvent::Slept) => {
                &&& post == MeasureFlow { phase: MeasurePhase::ReadPcrs, ..pre }
                &&& step matches Step::Do(MeasureAction::ReadPcrs { indices }) && indices@
                    == policy_registers()
            },
            (MeasurePhase::ReadPcrs, MeasureEvent::Pcrs(Err(e))) => Self::ends_vm_with(
                pre,
                "Failed to read PCRs: "@ + e@,
                post,
                step,
            ),
            (MeasurePhase::ReadPcrs, MeasureEvent::Pcrs(Ok(pcrs))) => {
                &&& Self::ends_vm(pre, post, step)
                &&& post.outcome == Some(Ok::<HashMap<u32, String>, BuildError>(pcrs))
            },
            (MeasurePhase::Kill, MeasureEvent::Done(_)) => {
                &&& post == MeasureFlow { phase: MeasurePhase::Reap, ..pre }
                &&& step matches Step::Do(MeasureAction::Reap)
            },
            (MeasurePhase::Reap, MeasureEvent::Done(_)) => {
                &&& post == MeasureFlow { phase: MeasurePhase::StopVtpm, ..pre }
                &&& step matches Step::Do(MeasureAction::StopVtpm)
            },
            (MeasurePhase::StopVtpm, MeasureEvent::Done(_)) => {
                &&& post == MeasureFlow { phase: MeasurePhase::RemoveDir, ..pre }
                &&& step matches Step::Do(MeasureAction::RemoveDir { path }) && path@ == pre.vm_dir@
            },
            (MeasurePhase::RemoveDir, MeasureEvent::Done(_)) => match pre.outcome {
                Some(result) => {
                    &&& post == MeasureFlow { outcome: None, phase: MeasurePhase::Finished, ..pre }
                    &&& step == MeasureStep::Return(result)
                },
                None => post == pre && step is Unexpected,
            },
            _ => post == pre && step is Unexpected,
        }
    }

    fn socket_path(&self) -> (r: String)
        ensures
            r@ == self.socket(),
    {
        join_path(self.vm_dir.as_str(), "ch.sock")
    }

    fn give_up(&mut self, prefix: &str, detail: &str) -> (r: MeasureStep)
        ensures
            Self::fails(*old(self), prefix@ + detail@, *final(self), r),
    {
        self.phase = MeasurePhase::Finished;
        fail(ErrorKind::Execution, prefix, detail)
    }

    fn end_vm(&mut self, outcome: Result<HashMap<u32, String>, BuildError>) -> (r: MeasureStep)
        ensures
            Self::ends_vm(*old(self), *final(self), r),
            final(self).outcome == Some(outcome),
    {
        self.outcome = Some(outcome);
        self.phase = MeasurePhase::Kill;
        Step::Do(MeasureAction::Kill)
    }

    fn end_vm_with(&mut self, prefix: &str, detail: &str) -> (r: MeasureStep)
        ensures
            Self::ends_vm_with(*old(self), prefix@ + detail@, *final(self), r),
    {
        self.end_vm(Err(BuildError::new(ErrorKind::Execution, concat2(prefix, detail))))
    }

    fn look_for_socket(&mut self) -> (r: MeasureStep)
        ensures
            Self::looks_for_socket(*old(self), *final(self), r),
    {
        self.phase = MeasurePhase::ProbeSocket;
        Step::Do(MeasureAction::Probe { path: self.socket_path() })
    }

    fn vm_config(&self) -> (r: MeasureVmConfig)
        ensures
            r.measures(self.kernel@, self.rootfs@, self.tpm_socket@),
    {
        MeasureVmConfig {
            boot_vcpus: 1,
            max_vcpus: 1,
            memory_size: 536870912,
            memory_shared: true,
            kernel: self.kernel.clone(),
            cmdline: owned("console=ttyS0 reboot=k panic=1 root=/dev/vda rw init=/bin/sh"),
            disk_path: self.rootfs.clone(),
            disk_readonly: true,
            tpm_socket: self.tpm_socket.clone(),
        }
    }

    /// Takes the outcome of the last action and says what to do next. Once the VM has been started
    /// it is ended again, whatever comes of the measurement.
    pub fn step(&mut self, event: MeasureEvent) -> (r: MeasureStep)
        ensures
            Self::transition(*old(self), event, *final(self), r),
    {
        match (self.phase, event) {
            (MeasurePhase::Begin, MeasureEvent::Start) => {
                self.phase = MeasurePhase::CreateDir;
                Step::Do(MeasureAction::CreateDir { path: self.vm_dir.clone() })
            },
            (MeasurePhase::CreateDir, MeasureEvent::Done(Err(e))) => self.give_up(
                "Failed to create measure VM dir: ",
                e.as_str(),
            ),
            (MeasurePhase::CreateDir, MeasureEvent::Done(Ok(_))) => {
                self.phase = MeasurePhase::FindKernel;
                Step::Do(MeasureAction::FindKernel)
            },
            (MeasurePhase::FindKernel, MeasureEvent::Found(Err(e))) => {
                let text = e.message();
                self.give_up("Kernel not found: ", text.as_str())
            },
            (MeasurePhase::FindKernel, MeasureEvent::Found(Ok(path))) => {
                self.kernel = path;
                self.phase = MeasurePhase::CreateVtpm;
                Step::Do(
                    MeasureAction::CreateVtpm { vm: owned(MEASURE_VM), dir: self.temp_dir.clone() },
                )
            },
            (MeasurePhase::CreateVtpm, MeasureEvent::Done(Err(e))) => self.give_up(
                "Failed to create vTPM: ",
                e.as_str(),
            ),
            (MeasurePhase::CreateVtpm, MeasureEvent::Done(Ok(_))) => {
                self.phase = MeasurePhase::StartVtpm;
                Step::Do(MeasureAction::StartVtpm)
            },
            (MeasurePhase::StartVtpm, MeasureEvent::VtpmStarted(Err(e))) => self.give_up(
                "Failed to start vTPM: ",
                e.as_str(),
            ),
            (MeasurePhase::StartVtpm, MeasureEvent::VtpmStarted(Ok(socket))) => {
                self.tpm_socket = socket;
                self.phase = MeasurePhase::FindFirmware;
                Step::Do(MeasureAction::ProbeAll { paths: firmware_candidates() })
            },
            (MeasurePhase::FindFirmware, MeasureEvent::ProbedAll(present)) => {
                self.firmware = choose_present(&firmware_candidates(), &present);
                self.phase = MeasurePhase::FindHypervisor;
                Step::Do(MeasureAction::FindHypervisor)
            },
            (MeasurePhase::FindHypervisor, MeasureEvent::Found(Err(e))) => {
                self.phase = MeasurePhase::Finished;
                Step::Return(Err(e))
            },
            (MeasurePhase::FindHypervisor, MeasureEvent::Found(Ok(path))) => {
                let firmware = self.firmware.take();
                let args = list_measure_vm_args(
                    self.kernel.as_str(),
                    self.socket_path().as_str(),
                    self.tpm_socket.as_str(),
                    self.rootfs.as_str(),
                    firmware,
                );
                self.phase = MeasurePhase::Spawn;
                Step::Do(MeasureAction::Spawn { program: path, args })
            },
            (MeasurePhase::Spawn, MeasureEvent::Done(Err(e))) => self.give_up(
                "Failed to start cloud-hypervisor: ",
                e.as_str(),
            ),
            (MeasurePhase::Spawn, MeasureEvent::Done(Ok(_))) => self.look_for_socket(),
            (MeasurePhase::ProbeSocket, MeasureEvent::Probed { present, elapsed_nanos }) => {
                if present {
                    self.phase = MeasurePhase::OpenClient;
                    Step::Do(MeasureAction::OpenClient { socket: self.socket_path() })
                } else if elapsed_nanos > SOCKET_TIMEOUT_NANOS {
                    self.phase = MeasurePhase::GiveUp;
                    Step::Do(MeasureAction::Kill)
                } else {
                    self.phase = MeasurePhase::Sleep;
                    Step::Do(MeasureAction::Sleep { millis: POLL_INTERVAL })
                }
            },
            (MeasurePhase::Sleep, MeasureEvent::Slept) => self.look_for_socket(),
            (MeasurePhase::GiveUp, MeasureEvent::Done(_)) => {
                self.phase = MeasurePhase::Finished;
                fail_plain(ErrorKind::Execution, "Timed out waiting for Cloud Hypervisor socket")
            },
            (MeasurePhase::OpenClient, MeasureEvent::Done(Err(e))) => self.end_vm_with(
                "Failed to build HTTP client: ",
                e.as_str(),
            ),
            (MeasurePhase::OpenClient, MeasureEvent::Done(Ok(_))) => {
                self.phase = MeasurePhase::Boot;
                Step::Do(
                    MeasureAction::Boot { config: self.vm_config(), limit_millis: BOOT_TIMEOUT },
                )
            },
            (MeasurePhase::Boot, MeasureEvent::Booted) => {
                self.phase = MeasurePhase::Settle;
                Step::Do(MeasureAction::Sleep { millis: SETTLE_TIME })
            },
            (MeasurePhase::Settle, MeasureEvent::Slept) => {
                self.phase = MeasurePhase::ReadPcrs;
                Step::Do(MeasureAction::ReadPcrs { indices: list_policy_registers() })
            },
            (MeasurePhase::ReadPcrs, MeasureEvent::Pcrs(Err(e))) => self.end_vm_with(
                "Failed to read PCRs: ",
                e.as_str(),
            ),
            (MeasurePhase::ReadPcrs, MeasureEvent::Pcrs(Ok(pcrs))) => self.end_vm(Ok(pcrs)),
            (MeasurePhase::Kill, MeasureEvent::Done(_)) => {
                self.phase = MeasurePhase::Reap;
                Step::Do(MeasureAction::Reap)
            },
            (MeasurePhase::Reap, MeasureEvent::Done(_)) => {
                self.phase = MeasurePhase::StopVtpm;
                Step::Do(MeasureAction::StopVtpm)
            },
            (MeasurePhase::StopVtpm, MeasureEvent::Done(_)) => {
                self.phase = MeasurePhase::RemoveDir;
                Step::Do(MeasureAction::RemoveDir { path: self.vm_dir.clone() })
            },
            (MeasurePhase::RemoveDir, MeasureEvent::Done(_)) => match self.outcome.take() {
                Some(result) => {
                    self.phase = MeasurePhase::Finished;
                    Step::Return(result)
                },
                None => Step::Unexpected,
            },
            _ => Step::Unexpected,
        }
    }
}

impl BuildRunner {
    /// Begins to measure the boot of an image with this root file system.
    pub fn measure_boot_pcr(&self, rootfs_path: &str) -> (r: MeasureFlow)
        ensures
            r.temp_dir@ == self.temp_dir@,
            r.rootfs@ == rootfs_path@,
            r.vm_dir@ == joined_path(self.temp_dir@, MEASURE_VM@),
            r.firmware is None,
            r.outcome is None,
            r.phase == MeasurePhase::Begin,
    {
        MeasureFlow {
            temp_dir: self.temp_dir.clone(),
            rootfs: owned(rootfs_path),
            vm_dir: join_path(self.temp_dir.as_str(), MEASURE_VM),
            kernel: String::new(),
            tpm_socket: String::new(),
            firmware: None,
            outcome: None,
            phase: MeasurePhase::Begin,
        }
    }
}

/// The steps of a measurement.
pub open spec fn measure_next() -> spec_fn(
    MeasureFlow,
    MeasureEvent,
    MeasureFlow,
    MeasureStep,
) -> bool {
    |pre: MeasureFlow, event: MeasureEvent, post: MeasureFlow, step: MeasureStep|
        MeasureFlow::transition(pre, event, post, step)
}

/// The answer asks for the registers of the policy.
pub open spec fn asks_registers(step: MeasureStep) -> bool {
    step matches Step::Do(MeasureAction::ReadPcrs { indices }) && indices@ == policy_registers()
}

/// The answer ends the VM.
pub open spec fn kills(step: MeasureStep) -> bool {
    step matches Step::Do(MeasureAction::Kill)
}

/// The registers were asked for at `asked` and handed over at `read`, and the answer to that ends
/// the VM.
pub open spec fn read_at(
    states: Seq<MeasureFlow>,
    events: Seq<MeasureEvent>,
    steps: Seq<MeasureStep>,
    asked: int,
    read: int,
    pcrs: HashMap<u32, String>,
) -> bool {
    &&& 0 <= asked < read < events.len()
    &&& asks_registers(steps[asked])
    &&& states[read].phase == MeasurePhase::ReadPcrs
    &&& events[read] == MeasureEvent::Pcrs(Ok(pcrs))
    &&& kills(steps[read])
}

proof fn lemma_measured(
    states: Seq<MeasureFlow>,
    events: Seq<MeasureEvent>,
    steps: Seq<MeasureStep>,
)
    requires
        is_run(measure_next(), states, events, steps),
        states[0].phase == MeasurePhase::Begin,
        states[0].outcome is None,
    ensures
        states.last().phase == MeasurePhase::ReadPcrs ==> exists|i: int|
            0 <= i < steps.len() && asks_registers(#[trigger] steps[i]),
        states.last().outcome matches Some(Ok(pcrs)) ==> exists|i: int, j: int| #[trigger]
            read_at(states, events, steps, i, j, pcrs),
    decreases steps.len(),
{
    if steps.len() > 0 {
        lemma_shorter_run(measure_next(), states, events, steps);
        let s = states.drop_last();
        let e = events.drop_last();
        let t = steps.drop_last();
        let n = steps.len() - 1;
        let pre = s.last();
        lemma_measured(s, e, t);
        if pre.phase == MeasurePhase::ReadPcrs {
            let i = choose|i: int| 0 <= i < t.len() && asks_registers(#[trigger] t[i]);
            assert(asks_registers(steps[i]));
            match events.last() {
                MeasureEvent::Pcrs(Ok(pcrs)) => {
                    assert(read_at(states, events, steps, i, n, pcrs));
                },
                _ => {},
            }
        } else if states.last().phase == MeasurePhase::ReadPcrs {
            assert(asks_registers(steps[n]));
        }
        match states.last().outcome {
            Some(Ok(pcrs)) => {
                if pre.phase != MeasurePhase::ReadPcrs || !(events.last() is Pcrs) {
                    assert(pre.outcome == states.last().outcome);
                    let (i, j) = choose|i: int, j: int| #[trigger] read_at(s, e, t, i, j, pcrs);
                    assert(read_at(states, events, steps, i, j, pcrs));
                }
            },
            _ => {},
        }
    }
}

/// The registers that a measurement returns are those that were read from the virtual TPM, after
/// the registers of the policy had been asked for. The VM is ended as soon as they are read.
pub proof fn measured_registers_are_those_read(
    states: Seq<MeasureFlow>,
    events: Seq<MeasureEvent>,
    steps: Seq<MeasureStep>,
    pcrs: HashMap<u32, String>,
)
    requires
        is_run(measure_next(), states, events, steps),
        states[0].phase == MeasurePhase::Begin,
        states[0].outcome is None,
        steps.len() > 0,
        steps.last() == MeasureStep::Return(Ok(pcrs)),
    ensures
        exists|asked: int, read: int| #[trigger]
            read_at(states, events, steps, asked, read, pcrs),
{
    lemma_shorter_run(measure_next(), states, events, steps);
    let s = states.drop_last();
    let e = events.drop_last();
    let t = steps.drop_last();
    lemma_measured(s, e, t);
    let (i, j) = choose|i: int, j: int| #[trigger] read_at(s, e, t, i, j, pcrs);
    assert(read_at(states, events, steps, i, j, pcrs));
}

/// The answer starts the VM.
pub open spec fn spawns(step: MeasureStep) -> bool {
    step matches Step::Do(MeasureAction::Spawn { .. })
}

/// The phases in which the VM runs and nothing has been done to end it.
spec fn vm_runs(phase: MeasurePhase) -> bool {
    phase == MeasurePhase::ProbeSocket || phase == MeasurePhase::Sleep || phase
        == MeasurePhase::OpenClient || phase == MeasurePhase::Boot || phase == MeasurePhase::Settle
        || phase == MeasurePhase::ReadPcrs
}

proof fn lemma_killed(
    states: Seq<MeasureFlow>,
    events: Seq<MeasureEvent>,
    steps: Seq<MeasureStep>,
    at: int,
)
    requires
        is_run(measure_next(), states, events, steps),
        0 <= at < steps.len() - 1,
        spawns(steps[at]),
        events[at + 1] == MeasureEvent::Done(Ok(())),
    ensures
        vm_runs(states.last().phase) || exists|i: int|
            at < i < steps.len() && kills(#[trigger] steps[i]),
    decreases steps.len(),
{
    lemma_shorter_run(measure_next(), states, events, steps);
    let t = steps.drop_last();
    let n = steps.len() - 1;
    if n == at + 1 {
        assert(measure_next()(states[at], events[at], states[at + 1], steps[at]));
    } else {
        assert(t[at] == steps[at]);
        assert(events.drop_last()[at + 1] == events[at + 1]);
        lemma_killed(states.drop_last(), events.drop_last(), t, at);
        if exists|i: int| at < i < t.len() && kills(#[trigger] t[i]) {
            let i = choose|i: int| at < i < t.len() && kills(#[trigger] t[i]);
            assert(kills(steps[i]));
        } else if !vm_runs(states.last().phase) {
            assert(kills(steps[n]));
        }
    }
}

/// A VM that was started is ended before the measurement returns, whatever it returns.
pub proof fn spawned_vm_is_killed(
    states: Seq<MeasureFlow>,
    events: Seq<MeasureEvent>,
    steps: Seq<MeasureStep>,
    at: int,
)
    requires
        is_run(measure_next(), states, events, steps),
        0 <= at < steps.len() - 1,
        spawns(steps[at]),
        events[at + 1] == MeasureEvent::Done(Ok(())),
        steps.last() is Return,
    ensures
        exists|i: int| at < i < steps.len() && kills(#[trigger] steps[i]),
{
    lemma_killed(states, events, steps, at);
    lemma_shorter_run(measure_next(), states, events, steps);
}

} // verus!
