//! What running a command in a VM does.
use vstd::prelude::*;
use crate::build::command::{
    exit_code, CommandAction, CommandEvent, CommandFlow, CommandPhase, CommandStep, VmFlow, VmPhase,
    VmStep,
};
use crate::flow::{is_run, lemma_first_steps, lemma_shorter_run, Step};
use crate::laws::ends::{io_error, vm_error};
use crate::path::joined_path;
use crate::text::texts;

verus! {

/// The steps of a VM that runs a command of a build.
pub open spec fn command_next() -> spec_fn(
    CommandFlow,
    CommandEvent,
    CommandFlow,
    CommandStep,
) -> bool {
    |pre: CommandFlow, event: CommandEvent, post: CommandFlow, step: CommandStep|
        CommandFlow::transition(pre, event, post, step)
}

/// The steps of a VM with a read-only root file system.
pub open spec fn vm_next() -> spec_fn(VmFlow, CommandEvent, VmFlow, VmStep) -> bool {
    |pre: VmFlow, event: CommandEvent, post: VmFlow, step: VmStep|
        VmFlow::transition(pre, event, post, step)
}

/// A VM is started with the kernel, the initial RAM file system that runs the command, and the
/// hypervisor that were found, on the disk that was asked for. The first of these that is not found
/// ends the run with its error, and so does a hypervisor that does not start.
pub proof fn vm_is_started_on_its_disk(
    states: Seq<CommandFlow>,
    events: Seq<CommandEvent>,
    steps: Seq<CommandStep>,
    kernel: String,
    initramfs: String,
    hypervisor: String,
    n: int,
)
    requires
        is_run(command_next(), states, events, steps),
        states[0].phase == CommandPhase::Begin,
        0 <= n <= steps.len(),
        n <= 4,
        n > 0 ==> events[0] == CommandEvent::Start,
        n > 1 ==> events[1] == CommandEvent::Found(Ok(kernel)),
        n > 2 ==> events[2] == CommandEvent::Found(Ok(initramfs)),
        n > 3 ==> events[3] == CommandEvent::Found(Ok(hypervisor)),
    ensures
        n > 0 ==> (steps[0] matches Step::Do(CommandAction::FindKernel)),
        n > 1 ==> (steps[1] matches Step::Do(CommandAction::BuildInitramfs { command }) && command@
            == states[0].command@),
        n > 2 ==> (steps[2] matches Step::Do(CommandAction::FindHypervisor)),
        n > 3 ==> (steps[3] matches Step::Do(CommandAction::Spawn { program, args }) && program
            == hypervisor && texts(args) == seq![
            "--kernel"@,
            kernel@,
            "--initramfs"@,
            initramfs@,
            "--disk"@,
            "path="@ + states[0].rootdisk@,
            "--console"@,
            "off"@,
            "--serial"@,
            "tty"@,
            "--api-socket"@,
            joined_path(states[0].vm_dir@, "ch.sock"@),
            "--cpus"@,
            "boot=1"@,
            "--memory"@,
            "size=512M"@,
            "--cmdline"@,
            "console=ttyS0 reboot=k panic=1 quiet"@,
        ]),
        0 < n < 4 && n < steps.len() ==> (events[n] matches CommandEvent::Found(Err(e)) ==> steps[n]
            == CommandStep::Return(Err(e))),
        n == 4 < steps.len() ==> (events[4] matches CommandEvent::Spawned(Err(e)) ==> vm_error(
            steps[4],
            "Failed to start cloud-hypervisor: "@ + e@,
        )),
{
}

proof fn lemma_command_kept(
    states: Seq<CommandFlow>,
    events: Seq<CommandEvent>,
    steps: Seq<CommandStep>,
)
    requires
        is_run(command_next(), states, events, steps),
    ensures
        states.last().cgroup == states[0].cgroup,
        states.last().command == states[0].command,
    decreases steps.len(),
{
    if steps.len() > 0 {
        lemma_shorter_run(command_next(), states, events, steps);
        lemma_command_kept(states.drop_last(), events.drop_last(), steps.drop_last());
    }
}

/// A VM that has a control group is put into it under the number of its process, after the group was
/// created and given its limits: one processor and 512 mebibytes. Trouble with the group or with a
/// limit does not keep the VM from being waited for; without a group it is waited for at once.
pub proof fn vm_is_put_into_its_group(
    states: Seq<CommandFlow>,
    events: Seq<CommandEvent>,
    steps: Seq<CommandStep>,
    at: int,
    pid: u32,
)
    requires
        is_run(command_next(), states, events, steps),
        states[0].phase == CommandPhase::Begin,
        0 <= at < steps.len() - 5,
        states[at].phase == CommandPhase::Spawn,
        events[at] == CommandEvent::Spawned(Ok(pid)),
    ensures
        states[0].cgroup is None ==> (steps[at] matches Step::Do(CommandAction::Poll)),
        states[0].cgroup matches Some(group) ==> {
            &&& steps[at] matches Step::Do(CommandAction::CreateCgroup { id }) && id@ == group@
            &&& events[at + 1] matches CommandEvent::Done(Err(_)) ==> (steps[at + 1] matches Step::Do(
                CommandAction::Poll,
            ))
            &&& (events[at + 1] matches CommandEvent::Done(Ok(_))) && events[at + 2] is Done
                && events[at + 3] is Done && events[at + 4] is Done ==> {
                &&& steps[at + 1] matches Step::Do(CommandAction::SetCpuLimit { id, percent })
                    && id@ == group@ && percent == 100
                &&& steps[at + 2] matches Step::Do(CommandAction::SetMemoryLimit { id, bytes })
                    && id@ == group@ && bytes == 512 * 1024 * 1024
                &&& steps[at + 3] matches Step::Do(CommandAction::AddProcess { id, pid: p }) && id@
                    == group@ && p == pid
                &&& steps[at + 4] matches Step::Do(CommandAction::Poll)
            }
        },
{
    lemma_first_steps(command_next(), states, events, steps, at);
    lemma_command_kept(states.take(at + 1), events.take(at), steps.take(at));
    lemma_first_steps(command_next(), states, events, steps, at + 1);
    lemma_first_steps(command_next(), states, events, steps, at + 2);
    lemma_first_steps(command_next(), states, events, steps, at + 3);
    lemma_first_steps(command_next(), states, events, steps, at + 4);
}

/// At `i` the VM was started as the process `pid`.
spec fn started_at(states: Seq<CommandFlow>, events: Seq<CommandEvent>, pid: u32, i: int) -> bool {
    &&& 0 <= i < events.len()
    &&& states[i].phase == CommandPhase::Spawn
    &&& events[i] == CommandEvent::Spawned(Ok(pid))
}

/// The phases in which the VM has been started.
spec fn has_started(phase: CommandPhase) -> bool {
    match phase {
        CommandPhase::CreateCgroup
        | CommandPhase::SetCpu
        | CommandPhase::SetMemory
        | CommandPhase::AddProcess
        | CommandPhase::Poll
        | CommandPhase::Sleep
        | CommandPhase::LastPause => true,
        _ => false,
    }
}

proof fn lemma_command_pid(
    states: Seq<CommandFlow>,
    events: Seq<CommandEvent>,
    steps: Seq<CommandStep>,
)
    requires
        is_run(command_next(), states, events, steps),
        states[0].phase == CommandPhase::Begin,
    ensures
        has_started(states.last().phase) ==> exists|i: int| #[trigger]
            started_at(states, events, states.last().pid, i),
    decreases steps.len(),
{
    if steps.len() > 0 {
        lemma_shorter_run(command_next(), states, events, steps);
        let s = states.drop_last();
        let e = events.drop_last();
        let n = steps.len() - 1;
        lemma_command_pid(s, e, steps.drop_last());
        let pid = states.last().pid;
        if has_started(s.last().phase) {
            let i = choose|i: int| #[trigger] started_at(s, e, s.last().pid, i);
            assert(started_at(states, events, s.last().pid, i));
        } else if has_started(states.last().phase) {
            assert(s.last().phase == CommandPhase::Spawn);
            assert(started_at(states, events, pid, n));
        }
    }
}

/// What a run returns is the exit code that the VM ended with, or 1 where it ended by a signal, and
/// the number of the process that was started. While the VM has not ended it is asked again after a
/// pause, until five minutes have gone by.
pub proof fn exit_code_of_the_vm_is_returned(
    states: Seq<CommandFlow>,
    events: Seq<CommandEvent>,
    steps: Seq<CommandStep>,
    at: int,
    ended: Option<Option<i32>>,
    elapsed: u64,
)
    requires
        is_run(command_next(), states, events, steps),
        states[0].phase == CommandPhase::Begin,
        0 <= at < steps.len(),
        states[at].phase == CommandPhase::Poll,
        events[at] == (CommandEvent::Polled { ended, elapsed_millis: elapsed }),
    ensures
        ended matches Some(Some(code)) ==> (steps[at] matches Step::Return(Ok((c, p))) && c == code
            && p == Some(states[at].pid)),
        ended matches Some(None) ==> (steps[at] matches Step::Return(Ok((c, p))) && c == 1 && p
            == Some(states[at].pid)),
        exists|i: int| #[trigger] events[i] == CommandEvent::Spawned(Ok(states[at].pid)) && 0 <= i
            < at,
        ended is None && elapsed >= 300000 ==> vm_error(steps[at], "VM execution timed out"@),
        ended is None && elapsed < 300000 ==> (steps[at] matches Step::Do(
            CommandAction::Sleep { millis },
        ) && millis == (if 300000 - elapsed < 100 {
            300000 - elapsed
        } else {
            100
        })),
        at + 1 < steps.len() && ended is None && elapsed <= 299900 && events[at + 1]
            == CommandEvent::Slept ==> (steps[at + 1] matches Step::Do(CommandAction::Poll)),
        at + 1 < steps.len() && ended is None && 299900 < elapsed < 300000 && events[at + 1]
            == CommandEvent::Slept ==> vm_error(steps[at + 1], "VM execution timed out"@),
{
    lemma_first_steps(command_next(), states, events, steps, at);
    if at + 1 < steps.len() {
        lemma_first_steps(command_next(), states, events, steps, at + 1);
    }
    let s = states.take(at + 1);
    let e = events.take(at);
    lemma_command_pid(s, e, steps.take(at));
    let i = choose|i: int| #[trigger] started_at(s, e, states[at].pid, i);
    assert(events[i] == e[i]);
}

/// A VM with a read-only root file system is started with the initial RAM file system, the kernel and
/// the hypervisor that were found, after its directory was created, and is waited for for five minutes.
/// Its directory is removed and its exit code returned, 1 where it ended by a signal. The first thing
/// that goes wrong before that ends the run with its error.
pub proof fn readonly_vm_runs_the_command(
    states: Seq<VmFlow>,
    events: Seq<CommandEvent>,
    steps: Seq<VmStep>,
    initramfs: String,
    kernel: String,
    hypervisor: String,
    code: Option<i32>,
    n: int,
)
    requires
        is_run(vm_next(), states, events, steps),
        states[0].phase == VmPhase::Begin,
        0 <= n <= steps.len(),
        n <= 8,
        n > 0 ==> events[0] == CommandEvent::Start,
        n > 1 ==> events[1] == CommandEvent::Found(Ok(initramfs)),
        n > 2 ==> events[2] == CommandEvent::Found(Ok(kernel)),
        n > 3 ==> (events[3] matches CommandEvent::Done(Ok(_))),
        n > 4 ==> events[4] == CommandEvent::Found(Ok(hypervisor)),
        n > 5 ==> (events[5] matches CommandEvent::Spawned(Ok(_))),
        n > 6 ==> events[6] == CommandEvent::Ended(Ok(code)),
        n > 7 ==> events[7] is Done,
    ensures
        n > 0 ==> (steps[0] matches Step::Do(CommandAction::BuildInitramfs { command }) && command@
            == states[0].command@),
        n > 1 ==> (steps[1] matches Step::Do(CommandAction::FindKernel)),
        n > 2 ==> (steps[2] matches Step::Do(CommandAction::CreateDir { path }) && path@
            == states[0].vm_dir@),
        n > 3 ==> (steps[3] matches Step::Do(CommandAction::FindHypervisor)),
        n > 4 ==> (steps[4] matches Step::Do(CommandAction::Spawn { program, args }) && program
            == hypervisor && texts(args) == seq![
            "--kernel"@,
            kernel@,
            "--initramfs"@,
            initramfs@,
            "--disk"@,
            "path="@ + joined_path(states[0].temp_dir@, "temp_root.sqfs"@) + ",readonly=on"@,
            "--console"@,
            "off"@,
            "--serial"@,
            "tty"@,
            "--api-socket"@,
            joined_path(states[0].vm_dir@, "ch.sock"@),
            "--cpus"@,
            "boot=1"@,
            "--memory"@,
            "size=512M"@,
            "--rng"@,
            "src=/dev/urandom"@,
        ]),
        n > 5 ==> (steps[5] matches Step::Do(CommandAction::Wait { limit_millis }) && limit_millis
            == 300000),
        n > 6 ==> (steps[6] matches Step::Do(CommandAction::RemoveDir { path }) && path@
            == states[0].vm_dir@),
        n > 7 ==> (steps[7] matches Step::Return(Ok(c)) && c == (match code {
            Some(x) => x,
            None => 1i32,
        })),
        (n == 1 || n == 2 || n == 4) && n < steps.len() ==> (
        events[n] matches CommandEvent::Found(Err(e)) ==> steps[n] == VmStep::Return(Err(e))),
        n == 3 < steps.len() ==> (events[3] matches CommandEvent::Done(Err(e)) ==> io_error(
            steps[3],
            e@,
        )),
        n == 5 < steps.len() ==> (events[5] matches CommandEvent::Spawned(Err(e)) ==> vm_error(
            steps[5],
            "Failed to start Cloud Hypervisor: "@ + e@,
        )),
        n == 6 < steps.len() ==> (events[6] matches CommandEvent::Ended(Err(e)) ==> vm_error(
            steps[6],
            "VM process error: "@ + e@,
        )),
        n == 6 < steps.len() ==> (events[6] == CommandEvent::TimedOut ==> (steps[6] matches Step::Do(
            CommandAction::Kill,
        ))),
        n == 6 && steps.len() > 7 && events[6] == CommandEvent::TimedOut && events[7] is Done
            ==> vm_error(steps[7], "VM execution timed out"@),
{
}

/// An exit code is kept; a VM that was ended by a signal counts as failed.
pub proof fn exit_code_is_kept(code: i32)
    ensures
        exit_code(Some(code)) == code,
        exit_code(None) == 1,
{
}

} // verus!
