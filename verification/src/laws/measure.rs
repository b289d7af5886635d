//! What measuring the boot of an image does.
use vstd::prelude::*;
use std::collections::HashMap;
use crate::build::error::BuildError;
use crate::build::measure::{
    measure_next, MeasureAction, MeasureEvent, MeasureFlow, MeasurePhase, MeasureStep,
    MeasureVmConfig,
};
use crate::flow::{is_run, lemma_first_steps, lemma_shorter_run, Step};
use crate::laws::ends::execution_error;
use crate::number::decimal;
use crate::path::{first_present, joined_path};
use crate::text::texts;

verus! {

/// The first `n` events of a measurement where nothing goes wrong up to the start of the VM.
pub open spec fn preparation_goes_well(
    events: Seq<MeasureEvent>,
    kernel: String,
    tpm: String,
    present: Vec<bool>,
    hypervisor: String,
    n: int,
) -> bool {
    &&& n > 0 ==> events[0] == MeasureEvent::Start
    &&& n > 1 ==> (events[1] matches MeasureEvent::Done(Ok(_)))
    &&& n > 2 ==> events[2] == MeasureEvent::Found(Ok(kernel))
    &&& n > 3 ==> (events[3] matches MeasureEvent::Done(Ok(_)))
    &&& n > 4 ==> events[4] == MeasureEvent::VtpmStarted(Ok(tpm))
    &&& n > 5 ==> events[5] == MeasureEvent::ProbedAll(present)
    &&& n > 6 ==> events[6] == MeasureEvent::Found(Ok(hypervisor))
    &&& n > 7 ==> (events[7] matches MeasureEvent::Done(Ok(_)))
}

/// A measurement creates its directory, finds the kernel, starts a virtual TPM, looks for firmware,
/// finds the hypervisor, and starts a VM with all of these on the root file system that it was given,
/// read-only. The first thing that goes wrong ends it with an error that says so.
pub proof fn measured_vm_boots_the_rootfs(
    states: Seq<MeasureFlow>,
    events: Seq<MeasureEvent>,
    steps: Seq<MeasureStep>,
    kernel: String,
    tpm: String,
    present: Vec<bool>,
    hypervisor: String,
    n: int,
)
    requires
        is_run(measure_next(), states, events, steps),
        states[0].phase == MeasurePhase::Begin,
        0 <= n <= steps.len(),
        n <= 8,
        preparation_goes_well(events, kernel, tpm, present, hypervisor, n),
    ensures
        ({
            let socket = joined_path(states[0].vm_dir@, "ch.sock"@);
            let sites = seq![
                "/usr/share/OVMF/OVMF_CODE.fd"@,
                "/usr/share/qemu/ovmf-x64/OVMF_CODE.fd"@,
                "/usr/share/edk2/ovmf/x64/OVMF_CODE.fd"@,
            ];
            &&& n > 0 ==> (steps[0] matches Step::Do(MeasureAction::CreateDir { path }) && path@
                == states[0].vm_dir@)
            &&& n > 1 ==> (steps[1] matches Step::Do(MeasureAction::FindKernel))
            &&& n > 2 ==> (steps[2] matches Step::Do(MeasureAction::CreateVtpm { vm, dir }) && vm@
                == "measure-vm"@ && dir@ == states[0].temp_dir@)
            &&& n > 3 ==> (steps[3] matches Step::Do(MeasureAction::StartVtpm))
            &&& n > 4 ==> (steps[4] matches Step::Do(MeasureAction::ProbeAll { paths }) && texts(
                paths,
            ) == sites)
            &&& n > 5 ==> (steps[5] matches Step::Do(MeasureAction::FindHypervisor))
            &&& n > 6 ==> (steps[6] matches Step::Do(MeasureAction::Spawn { program, args })
                && program == hypervisor && texts(args) == seq![
                "--kernel"@,
                kernel@,
                "--memory"@,
                "size=512M"@,
                "--cpus"@,
                "boot=1"@,
                "--console"@,
                "off"@,
                "--serial"@,
                "tty"@,
                "--api-socket"@,
                socket,
                "--rng"@,
                "src=/dev/urandom"@,
                "--tpm"@,
                "socket="@ + tpm@,
                "--disk"@,
                "path="@ + states[0].rootfs@ + ",readonly=on"@,
            ] + (match first_present(sites, present@) {
                Some(firmware) => seq!["--firmware"@, firmware],
                None => seq![],
            }))
            &&& n > 7 ==> (steps[7] matches Step::Do(MeasureAction::Probe { path }) && path@
                == socket)
            &&& n == 1 < steps.len() ==> (events[1] matches MeasureEvent::Done(Err(e))
                ==> execution_error(steps[1], "Failed to create measure VM dir: "@ + e@))
            &&& n == 3 < steps.len() ==> (events[3] matches MeasureEvent::Done(Err(e))
                ==> execution_error(steps[3], "Failed to create vTPM: "@ + e@))
            &&& n == 4 < steps.len() ==> (events[4] matches MeasureEvent::VtpmStarted(Err(e))
                ==> execution_error(steps[4], "Failed to start vTPM: "@ + e@))
            &&& n == 6 < steps.len() ==> (events[6] matches MeasureEvent::Found(Err(e)) ==> steps[6]
                == MeasureStep::Return(Err(e)))
            &&& n == 7 < steps.len() ==> (events[7] matches MeasureEvent::Done(Err(e))
                ==> execution_error(steps[7], "Failed to start cloud-hypervisor: "@ + e@))
        }),
        n == 2 < steps.len() ==> (events[2] matches MeasureEvent::Found(
            Err(BuildError::VmError(e)),
        ) ==> execution_error(steps[2], "Kernel not found: "@ + ("VM error: "@ + e@))),
{
}

proof fn lemma_measure_kept(
    states: Seq<MeasureFlow>,
    events: Seq<MeasureEvent>,
    steps: Seq<MeasureStep>,
)
    requires
        is_run(measure_next(), states, events, steps),
    ensures
        states.last().vm_dir == states[0].vm_dir,
        states.last().rootfs == states[0].rootfs,
        states.last().temp_dir == states[0].temp_dir,
    decreases steps.len(),
{
    if steps.len() > 0 {
        lemma_shorter_run(measure_next(), states, events, steps);
        lemma_measure_kept(states.drop_last(), events.drop_last(), steps.drop_last());
    }
}

/// While the socket of the hypervisor is not there it is looked for again after a pause, for ten
/// seconds; after that the VM is ended and the measurement fails. Once it is there a client is opened
/// on it.
pub proof fn socket_is_waited_for(
    states: Seq<MeasureFlow>,
    events: Seq<MeasureEvent>,
    steps: Seq<MeasureStep>,
    at: int,
    present: bool,
    elapsed: u64,
)
    requires
        is_run(measure_next(), states, events, steps),
        states[0].phase == MeasurePhase::Begin,
        0 <= at < steps.len() - 1,
        states[at].phase == MeasurePhase::ProbeSocket,
        events[at] == (MeasureEvent::Probed { present, elapsed_nanos: elapsed }),
    ensures
        ({
            let path_of = joined_path(states[0].vm_dir@, "ch.sock"@);
            &&& present ==> (steps[at] matches Step::Do(MeasureAction::OpenClient { socket })
                && socket@ == path_of) && states[at + 1].phase == MeasurePhase::OpenClient
            &&& !present && elapsed <= 10000000000 ==> {
                &&& steps[at] matches Step::Do(MeasureAction::Sleep { millis }) && millis == 100
                &&& events[at + 1] == MeasureEvent::Slept ==> (steps[at + 1] matches Step::Do(
                    MeasureAction::Probe { path },
                ) && path@ == path_of) && states[at + 2].phase == MeasurePhase::ProbeSocket
            }
            &&& !present && elapsed > 10000000000 ==> {
                &&& steps[at] matches Step::Do(MeasureAction::Kill)
                &&& events[at + 1] is Done ==> execution_error(
                    steps[at + 1],
                    "Timed out waiting for Cloud Hypervisor socket"@,
                )
            }
        }),
{
    lemma_first_steps(measure_next(), states, events, steps, at);
    lemma_measure_kept(states.take(at + 1), events.take(at), steps.take(at));
    lemma_first_steps(measure_next(), states, events, steps, at + 1);
}

/// The VM that the hypervisor is asked to create.
pub open spec fn is_measured_vm(
    config: MeasureVmConfig,
    kernel: Seq<char>,
    rootfs: Seq<char>,
    tpm: Seq<char>,
) -> bool {
    &&& config.boot_vcpus == 1
    &&& config.max_vcpus == 1
    &&& config.memory_size == 512 * 1024 * 1024
    &&& config.memory_shared
    &&& config.kernel@ == kernel
    &&& config.cmdline@ == "console=ttyS0 reboot=k panic=1 root=/dev/vda rw init=/bin/sh"@
    &&& config.disk_path@ == rootfs
    &&& config.disk_readonly
    &&& config.tpm_socket@ == tpm
}

/// Once the hypervisor answers, the VM is booted with the kernel, the root file system and the TPM of
/// the measurement, the measurements are given five seconds to settle, and the eight registers of the
/// policy are read. Whatever comes of that, the VM is ended and waited for, the TPM stopped and the
/// directory removed, and then the registers or the error are returned.
pub proof fn registers_are_read_from_the_booted_vm(
    states: Seq<MeasureFlow>,
    events: Seq<MeasureEvent>,
    steps: Seq<MeasureStep>,
    kernel: String,
    tpm: String,
    present: Vec<bool>,
    hypervisor: String,
    pcrs: Result<HashMap<u32, String>, String>,
    n: int,
)
    requires
        is_run(measure_next(), states, events, steps),
        states[0].phase == MeasurePhase::Begin,
        0 <= n <= 9,
        n + 8 <= steps.len(),
        preparation_goes_well(events, kernel, tpm, present, hypervisor, 8),
        n > 0 ==> (events[8] matches MeasureEvent::Probed { present: true, .. }),
        n > 1 ==> (events[9] matches MeasureEvent::Done(Ok(_))),
        n > 2 ==> events[10] == MeasureEvent::Booted,
        n > 3 ==> events[11] == MeasureEvent::Slept,
        n > 4 ==> events[12] == MeasureEvent::Pcrs(pcrs),
        n > 5 ==> events[13] is Done,
        n > 6 ==> events[14] is Done,
        n > 7 ==> events[15] is Done,
        n > 8 ==> events[16] is Done,
    ensures
        n > 0 ==> (steps[8] matches Step::Do(MeasureAction::OpenClient { socket }) && socket@
            == joined_path(states[0].vm_dir@, "ch.sock"@)),
        n > 1 ==> (steps[9] matches Step::Do(MeasureAction::Boot { config, limit_millis })
            && limit_millis == 30000 && is_measured_vm(
            config,
            kernel@,
            states[0].rootfs@,
            tpm@,
        )),
        n > 2 ==> (steps[10] matches Step::Do(MeasureAction::Sleep { millis }) && millis == 5000),
        n > 3 ==> (steps[11] matches Step::Do(MeasureAction::ReadPcrs { indices }) && indices@
            == seq![0u32, 1u32, 4u32, 5u32, 7u32, 9u32, 10u32, 14u32]),
        n > 4 ==> (steps[12] matches Step::Do(MeasureAction::Kill)),
        n > 5 ==> (steps[13] matches Step::Do(MeasureAction::Reap)),
        n > 6 ==> (steps[14] matches Step::Do(MeasureAction::StopVtpm)),
        n > 7 ==> (steps[15] matches Step::Do(MeasureAction::RemoveDir { path }) && path@
            == states[0].vm_dir@),
        n > 8 ==> match pcrs {
            Ok(values) => steps[16] == MeasureStep::Return(Ok(values)),
            Err(e) => execution_error(steps[16], "Failed to read PCRs: "@ + e@),
        },
        n == 1 && steps.len() > 13 ==> (events[9] matches MeasureEvent::Done(Err(e)) ==> {
            &&& steps[9] matches Step::Do(MeasureAction::Kill)
            &&& events[10] is Done && events[11] is Done && events[12] is Done && events[13] is Done
                ==> {
                &&& steps[10] matches Step::Do(MeasureAction::Reap)
                &&& steps[11] matches Step::Do(MeasureAction::StopVtpm)
                &&& steps[12] matches Step::Do(MeasureAction::RemoveDir { path }) && path@
                    == states[0].vm_dir@
                &&& execution_error(steps[13], "Failed to build HTTP client: "@ + e@)
            }
        }),
{
}

/// The request for a VM names the things that it is to have, each under its own key.
pub proof fn request_names_what_the_vm_has(config: MeasureVmConfig)
    ensures
        config.json() == "{\"disks\":[{\"path\":"@ + crate::build::measure::json_string(
            config.disk_path@,
        ) + ",\"readonly\":"@ + (if config.disk_readonly {
            "true"@
        } else {
            "false"@
        }) + "}],\"memory\":{\"shared\":"@ + (if config.memory_shared {
            "true"@
        } else {
            "false"@
        }) + ",\"size\":"@ + decimal(config.memory_size as nat) + "},\"payload\":{\"cmdline\":"@
            + crate::build::measure::json_string(config.cmdline@) + ",\"kernel\":"@
            + crate::build::measure::json_string(config.kernel@) + "},\"tpm\":{\"socket\":"@
            + crate::build::measure::json_string(config.tpm_socket@)
            + "},\"vcpu\":{\"boot_vcpus\":"@ + decimal(config.boot_vcpus as nat)
            + ",\"max_vcpus\":"@ + decimal(config.max_vcpus as nat) + "}}"@,
{
}

} // verus!
