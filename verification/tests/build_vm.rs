use std::sync::Arc;
use vyoma::build::clock::{
    build_name_at, build_name_now, injected_name_at, layer_name_at, layer_name_now,
};
use vyoma::build::command::{CommandAction, CommandEvent, CommandFlow, VmFlow};
use vyoma::build::error::BuildError;
use vyoma::build::guard::{BuildResourceGuard, ReleaseAction, ReleaseEvent};
use vyoma::build::initramfs::{build_initramfs_result, generate_build_script};
use vyoma::build::layer::{ExecuteAction, ExecuteEvent, ExecuteFlow, RunAction, RunEvent, RunFlow};
use vyoma::build::runner::BuildRunner;
use vyoma::cgroups::CgroupManager;
use vyoma::cow::LoopDevice;
use vyoma::flow::Step;

fn text(s: &str) -> String {
    s.to_string()
}

fn runner() -> BuildRunner {
    BuildRunner::new(text("/work"))
}

fn limited() -> BuildRunner {
    runner().with_cgroups(Arc::new(CgroupManager::new()))
}

fn message<A, T>(step: Step<A, T, BuildError>) -> String {
    match step {
        Step::Return(Err(e)) => e.message(),
        _ => panic!("error expected"),
    }
}

#[test]
fn names_carry_the_time() {
    assert_eq!(build_name_at(1700000000123), "build-1700000000123");
    assert_eq!(layer_name_at(Some(42)), "layer_42.sqfs");
    assert_eq!(layer_name_at(None), "layer_0.sqfs");
    assert_eq!(layer_name_at(Some(-1)), "layer_-1.sqfs");
    assert_eq!(injected_name_at(7), "layer_7_injected.sqfs");
    let millis = build_name_now()["build-".len()..].parse::<i64>().unwrap();
    assert!(millis > 1_500_000_000_000);
    assert!(millis < 10_000_000_000_000);
    let layer = layer_name_now();
    let nanos = layer["layer_".len()..layer.len() - ".sqfs".len()].parse::<i64>().unwrap();
    assert!(nanos > 1_500_000_000_000_000_000);
}

#[test]
fn command_stands_in_the_build_script() {
    let script = generate_build_script("make\nmake install");
    assert!(script.starts_with("#!/bin/busybox sh\n"));
    assert!(script.contains("\nset -e\nmake\nmake install\nVYOMAEOF\n"));
    assert!(script.ends_with("poweroff -f\n"));
}

#[test]
fn build_vm_powers_off_after_the_command() {
    let script = generate_build_script("make");
    let offs: Vec<usize> = script.match_indices("poweroff").map(|(i, _)| i).collect();
    assert_eq!(offs.len(), 2);
    let missing = script.find("Timed out waiting for /dev/vda").unwrap();
    let mounted = script.find("mount /dev/vda /mnt/root").unwrap();
    let written = script.find("cat > /mnt/root/vyoma-build.sh").unwrap();
    let command = script.find("\nmake\n").unwrap();
    let run = script.find("\nchroot /mnt/root /vyoma-build.sh\n").unwrap();
    let unmounted = script.find("umount /mnt/root ").unwrap();
    assert!(missing < offs[0] && offs[0] < mounted);
    assert!(mounted < written && written < command && command < run && run < unmounted);
    assert!(unmounted < offs[1]);
    assert_eq!(&script[offs[1]..], "poweroff -f\n");
}

#[test]
fn build_initramfs_is_requested() {
    let request = runner().create_build_initramfs("make", &vec![false, true]);
    assert_eq!(request.path, "/work/temp/build-initramfs.cpio.gz");
    assert_eq!(request.agent, None);
    assert_eq!(request.busybox, Some(text("/usr/bin/busybox")));
    assert_eq!(request.script, generate_build_script("make"));
    assert_eq!(runner().create_build_initramfs("make", &vec![false, false]).busybox, None);
    assert_eq!(build_initramfs_result(text("/i"), Ok(())).unwrap(), "/i");
    assert_eq!(
        build_initramfs_result(text("/i"), Err(text("full"))).unwrap_err().message(),
        "VM error: Failed to create build initramfs: full"
    );
}

fn run_started() -> RunFlow {
    let mut flow = runner().run_as("/r.sqfs", "make", "build-5");
    let step = flow.step(RunEvent::Start);
    assert!(matches!(step, Step::Do(RunAction::CreateDir { path }) if path == "/work/temp/build-5"));
    match flow.step(RunEvent::Done(Ok(()))) {
        Step::Do(RunAction::Execute { rootfs, command, build_dir }) => {
            assert_eq!(rootfs, "/r.sqfs");
            assert_eq!(command, "make");
            assert_eq!(build_dir, "/work/temp/build-5");
        }
        _ => panic!("execution expected"),
    }
    flow
}

fn removed(step: Step<RunAction, String, BuildError>) -> bool {
    matches!(step, Step::Do(RunAction::RemoveDir { path }) if path == "/work/temp/build-5")
}

#[test]
fn layer_of_a_run_is_kept() {
    let mut flow = run_started();
    let kept = match flow.step(RunEvent::Executed(Ok(text("/work/temp/build-5/layer.sqfs")))) {
        Step::Do(RunAction::Rename { from, to }) => {
            assert_eq!(from, "/work/temp/build-5/layer.sqfs");
            to
        }
        _ => panic!("rename expected"),
    };
    assert!(kept.starts_with("/work/temp/layer_"));
    assert!(removed(flow.step(RunEvent::Done(Ok(())))));
    let step = flow.step(RunEvent::Done(Err(text("busy"))));
    assert!(matches!(step, Step::Return(Ok(path)) if path == kept));
}

#[test]
fn directory_of_a_run_is_removed_after_errors() {
    let mut flow = run_started();
    assert!(removed(flow.step(RunEvent::Executed(Err(BuildError::VmError(text("x")))))));
    assert_eq!(message(flow.step(RunEvent::Done(Ok(())))), "VM error: x");
    let mut flow = run_started();
    let step = flow.preserve_as(text("/l"), "layer_1.sqfs");
    assert!(matches!(step, Step::Do(RunAction::Rename { from, to }) if from == "/l" && to == "/work/temp/layer_1.sqfs"));
    assert!(removed(flow.step(RunEvent::Done(Err(text("cross-device"))))));
    assert_eq!(
        message(flow.step(RunEvent::Done(Ok(())))),
        "Execution error: Failed to preserve layer: cross-device"
    );
    let mut flow = runner().handle_run("/r", "c");
    flow.step(RunEvent::Start);
    assert_eq!(
        message(flow.step(RunEvent::Done(Err(text("full"))))),
        "Execution error: Failed to create build dir: full"
    );
}

fn attached(path: &str, handle: Option<u8>) -> ExecuteEvent<u8> {
    ExecuteEvent::Attached(Ok(LoopDevice::new(text(path), handle)))
}

fn until_run(r: &BuildRunner) -> (ExecuteFlow<u8>, Option<String>) {
    let mut flow = r.execute_build_in_vm("/r.sqfs", "make", "/b", 77);
    match flow.step(ExecuteEvent::Start) {
        Step::Do(ExecuteAction::Convert { squashfs, key }) => {
            assert_eq!(squashfs, "/r.sqfs");
            assert_eq!(key, "/r.sqfs");
        }
        _ => panic!("conversion expected"),
    }
    match flow.step(ExecuteEvent::Converted(Ok(text("/c.ext4")))) {
        Step::Do(ExecuteAction::CreateCow { path, size_mb }) => {
            assert_eq!(path, "/b/cow.img");
            assert_eq!(size_mb, 1024);
        }
        _ => panic!("file expected"),
    }
    assert!(matches!(flow.step(ExecuteEvent::Done(Ok(()))), Step::Do(ExecuteAction::OpenLoops)));
    let step = flow.step(ExecuteEvent::Done(Ok(())));
    assert!(matches!(step, Step::Do(ExecuteAction::Attach { file }) if file == "/c.ext4"));
    let step = flow.step(attached("/dev/loop1", Some(1)));
    assert!(matches!(step, Step::Do(ExecuteAction::Attach { file }) if file == "/b/cow.img"));
    let step = flow.step(attached("/dev/loop2", None));
    assert!(matches!(step, Step::Do(ExecuteAction::OpenMapper)));
    match flow.step(ExecuteEvent::Done(Ok(()))) {
        Step::Do(ExecuteAction::Snapshot { name, base, cow }) => {
            assert_eq!(name, "vyoma-build-77");
            assert_eq!(base, "/dev/loop1");
            assert_eq!(cow, "/dev/loop2");
        }
        _ => panic!("snapshot expected"),
    }
    match flow.step(ExecuteEvent::Snapshot(Ok(text("/dev/dm-3")))) {
        Step::Do(ExecuteAction::Run { disk, command, vm_dir, cgroup }) => {
            assert_eq!(disk, "/dev/dm-3");
            assert_eq!(command, "make");
            assert_eq!(vm_dir, "/b");
            (flow, cgroup)
        }
        _ => panic!("run expected"),
    }
}

fn released(step: Step<ExecuteAction<u8>, String, BuildError>) -> Option<String> {
    match step {
        Step::Do(ExecuteAction::Release { mut flow }) => {
            let cgroup = flow.cgroup.clone();
            assert!(matches!(flow.step(ReleaseEvent::Start), Step::Do(ReleaseAction::OpenLoops)));
            let step = flow.step(ReleaseEvent::Done(Ok(())));
            assert!(matches!(step, Step::Do(ReleaseAction::Detach { device }) if device.path == "/dev/loop1" && device.device == Some(1)));
            let step = flow.step(ReleaseEvent::Done(Ok(())));
            assert!(matches!(step, Step::Do(ReleaseAction::Detach { device }) if device.path == "/dev/loop2" && device.device == None));
            let step = flow.step(ReleaseEvent::Done(Ok(())));
            assert!(matches!(step, Step::Do(ReleaseAction::OpenMapper)));
            let step = flow.step(ReleaseEvent::Done(Ok(())));
            assert!(matches!(step, Step::Do(ReleaseAction::RemoveSnapshot { name }) if name == "vyoma-build-77"));
            let step = flow.step(ReleaseEvent::Done(Ok(())));
            match &cgroup {
                Some(group) => assert!(matches!(step, Step::Do(ReleaseAction::RemoveCgroup { id }) if &id == group)),
                None => assert!(matches!(step, Step::Return(Ok(())))),
            }
            cgroup
        }
        _ => panic!("release expected"),
    }
}

#[test]
fn layer_is_made_after_a_successful_command() {
    let (mut flow, cgroup) = until_run(&limited());
    assert_eq!(cgroup, Some(text("vyoma-build-77")));
    let step = flow.step(ExecuteEvent::Ran(Ok(0)));
    assert!(matches!(step, Step::Do(ExecuteAction::Probe { path }) if path == "/dev/mapper/vyoma-build-77"));
    match flow.step(ExecuteEvent::Probed(true)) {
        Step::Do(ExecuteAction::MakeLayer { device, squashfs }) => {
            assert_eq!(device, "/dev/mapper/vyoma-build-77");
            assert_eq!(squashfs, "/b/layer.sqfs");
        }
        _ => panic!("layer expected"),
    }
    assert_eq!(released(flow.step(ExecuteEvent::Layered(Ok(())))), Some(text("vyoma-build-77")));
    let step = flow.step(ExecuteEvent::Released);
    assert!(matches!(step, Step::Do(ExecuteAction::RemoveFile { path }) if path == "/b/cow.img"));
    let step = flow.step(ExecuteEvent::Done(Ok(())));
    assert!(matches!(step, Step::Return(Ok(path)) if path == "/b/layer.sqfs"));
}

#[test]
fn vm_is_released_after_every_failure() {
    let (mut flow, cgroup) = until_run(&runner());
    assert_eq!(cgroup, None);
    assert_eq!(released(flow.step(ExecuteEvent::Ran(Ok(-2)))), None);
    flow.step(ExecuteEvent::Released);
    assert_eq!(
        message(flow.step(ExecuteEvent::Done(Ok(())))),
        "Execution error: Build command failed with exit code -2"
    );

    let (mut flow, _) = until_run(&runner());
    released(flow.step(ExecuteEvent::Ran(Err(BuildError::VmError(text("x"))))));
    flow.step(ExecuteEvent::Released);
    assert_eq!(message(flow.step(ExecuteEvent::Done(Ok(())))), "VM error: x");

    let (mut flow, _) = until_run(&runner());
    flow.step(ExecuteEvent::Ran(Ok(0)));
    released(flow.step(ExecuteEvent::Probed(false)));
    flow.step(ExecuteEvent::Released);
    assert_eq!(
        message(flow.step(ExecuteEvent::Done(Ok(())))),
        "Execution error: DM device not found for layer creation"
    );

    let (mut flow, _) = until_run(&runner());
    flow.step(ExecuteEvent::Ran(Ok(0)));
    flow.step(ExecuteEvent::Probed(true));
    released(flow.step(ExecuteEvent::Layered(Err(BuildError::ExecutionError(text("y"))))));
    assert_eq!(message(flow.step(ExecuteEvent::Released)), "Execution error: y");
}

#[test]
fn cached_base_is_used_if_its_file_is_there() {
    let mut r = runner();
    r.ext4_cache.insert(text("/r.sqfs"), text("/old.ext4"));
    let mut flow = r.execute_build_in_vm::<u8>("/r.sqfs", "make", "/b", 1);
    let step = flow.step(ExecuteEvent::Start);
    assert!(matches!(step, Step::Do(ExecuteAction::Probe { path }) if path == "/old.ext4"));
    let step = flow.step(ExecuteEvent::Probed(true));
    assert!(matches!(step, Step::Do(ExecuteAction::CreateCow { .. })));
    flow.step(ExecuteEvent::Done(Ok(())));
    let step = flow.step(ExecuteEvent::Done(Ok(())));
    assert!(matches!(step, Step::Do(ExecuteAction::Attach { file }) if file == "/old.ext4"));
    let mut flow = r.execute_build_in_vm::<u8>("/r.sqfs", "make", "/b", 1);
    flow.step(ExecuteEvent::Start);
    let step = flow.step(ExecuteEvent::Probed(false));
    assert!(matches!(step, Step::Do(ExecuteAction::Convert { .. })));
}

#[test]
fn preparation_errors() {
    let begun = || {
        let mut flow = runner().execute_build_in_vm::<u8>("/r.sqfs", "make", "/b", 1);
        flow.step(ExecuteEvent::Start);
        flow
    };
    let step = begun().step(ExecuteEvent::Converted(Err(BuildError::InjectionError(text("a")))));
    assert_eq!(message(step), "Injection error: a");
    let events: Vec<(Vec<ExecuteEvent<u8>>, &str)> = vec![
        (vec![ExecuteEvent::Done(Err(text("e")))], "Failed to create COW file: e"),
        (
            vec![ExecuteEvent::Done(Ok(())), ExecuteEvent::Done(Err(text("e")))],
            "Failed to create loop manager: e",
        ),
        (
            vec![
                ExecuteEvent::Done(Ok(())),
                ExecuteEvent::Done(Ok(())),
                ExecuteEvent::Attached(Err(text("e"))),
            ],
            "Failed to attach base ext4: e",
        ),
        (
            vec![
                ExecuteEvent::Done(Ok(())),
                ExecuteEvent::Done(Ok(())),
                attached("/1", None),
                ExecuteEvent::Attached(Err(text("e"))),
            ],
            "Failed to attach COW: e",
        ),
        (
            vec![
                ExecuteEvent::Done(Ok(())),
                ExecuteEvent::Done(Ok(())),
                attached("/1", None),
                attached("/2", None),
                ExecuteEvent::Done(Err(text("e"))),
            ],
            "Failed to create DM manager: e",
        ),
        (
            vec![
                ExecuteEvent::Done(Ok(())),
                ExecuteEvent::Done(Ok(())),
                attached("/1", None),
                attached("/2", None),
                ExecuteEvent::Done(Ok(())),
                ExecuteEvent::Snapshot(Err(text("e"))),
            ],
            "Failed to create DM snapshot: e",
        ),
    ];
    for (list, expected) in events {
        let mut flow = begun();
        let mut step = flow.step(ExecuteEvent::Converted(Ok(text("/c.ext4"))));
        for event in list {
            step = flow.step(event);
        }
        assert_eq!(message(step), format!("Execution error: {}", expected));
    }
}

fn devices() -> Vec<LoopDevice<u8>> {
    vec![
        LoopDevice::new(text("/dev/loop1"), Some(1)),
        LoopDevice::new(text("/dev/loop2"), None),
    ]
}

#[test]
fn guard_releases_everything_in_order() {
    let guard =
        BuildResourceGuard::new(devices(), Some(text("snap")), Some(text("vm")), Some(9u64));
    let (mut flow, temp_dir) = guard.release();
    assert_eq!(temp_dir, Some(9));
    assert!(matches!(flow.step(ReleaseEvent::Start), Step::Do(ReleaseAction::OpenLoops)));
    let step = flow.step(ReleaseEvent::Done(Ok(())));
    assert!(matches!(step, Step::Do(ReleaseAction::Detach { device }) if device.path == "/dev/loop1" && device.device == Some(1)));
    let step = flow.step(ReleaseEvent::Done(Err(text("busy"))));
    assert!(matches!(step, Step::Do(ReleaseAction::Detach { device }) if device.path == "/dev/loop2"));
    let step = flow.step(ReleaseEvent::Done(Ok(())));
    assert!(matches!(step, Step::Do(ReleaseAction::OpenMapper)));
    let step = flow.step(ReleaseEvent::Done(Ok(())));
    assert!(matches!(step, Step::Do(ReleaseAction::RemoveSnapshot { name }) if name == "snap"));
    let step = flow.step(ReleaseEvent::Done(Err(text("busy"))));
    assert!(matches!(step, Step::Do(ReleaseAction::RemoveCgroup { id }) if id == "vm"));
    assert!(matches!(flow.step(ReleaseEvent::Done(Err(text("busy")))), Step::Return(Ok(()))));
}

#[test]
fn guard_stops_without_a_control() {
    let guard = BuildResourceGuard::new(devices(), Some(text("snap")), Some(text("vm")), None::<u64>);
    let (mut flow, _) = guard.release();
    flow.step(ReleaseEvent::Start);
    assert!(matches!(flow.step(ReleaseEvent::Done(Err(text("no")))), Step::Return(Ok(()))));
    let guard: BuildResourceGuard<u8, u64> =
        BuildResourceGuard::new(vec![], Some(text("snap")), Some(text("vm")), None);
    let (mut flow, _) = guard.release();
    flow.step(ReleaseEvent::Start);
    flow.step(ReleaseEvent::Done(Ok(())));
    assert!(matches!(flow.step(ReleaseEvent::Done(Err(text("no")))), Step::Return(Ok(()))));
    let guard: BuildResourceGuard<u8, u64> = BuildResourceGuard::new(vec![], None, None, None);
    let (mut flow, _) = guard.release();
    flow.step(ReleaseEvent::Start);
    assert!(matches!(flow.step(ReleaseEvent::Done(Ok(()))), Step::Return(Ok(()))));
}

fn spawned(r: &BuildRunner, id: Option<&str>) -> (CommandFlow, Step<CommandAction, (i32, Option<u32>), BuildError>) {
    let mut flow = r.run_command_in_ch("/dev/dm-3", "make", "/b", id);
    assert!(matches!(flow.step(CommandEvent::Start), Step::Do(CommandAction::FindKernel)));
    let step = flow.step(CommandEvent::Found(Ok(text("/k"))));
    assert!(matches!(step, Step::Do(CommandAction::BuildInitramfs { command }) if command == "make"));
    let step = flow.step(CommandEvent::Found(Ok(text("/i"))));
    assert!(matches!(step, Step::Do(CommandAction::FindHypervisor)));
    match flow.step(CommandEvent::Found(Ok(text("/ch")))) {
        Step::Do(CommandAction::Spawn { program, args }) => {
            assert_eq!(program, "/ch");
            assert_eq!(
                args,
                vec![
                    "--kernel", "/k", "--initramfs", "/i", "--disk", "path=/dev/dm-3", "--console",
                    "off", "--serial", "tty", "--api-socket", "/b/ch.sock", "--cpus", "boot=1",
                    "--memory", "size=512M", "--cmdline", "console=ttyS0 reboot=k panic=1 quiet",
                ]
            );
        }
        _ => panic!("program expected"),
    }
    let step = flow.step(CommandEvent::Spawned(Ok(4711)));
    (flow, step)
}

#[test]
fn vm_is_polled_until_it_ends() {
    let (mut flow, step) = spawned(&runner(), Some("vyoma-build-77"));
    assert!(matches!(step, Step::Do(CommandAction::Poll)));
    let step = flow.step(CommandEvent::Polled { ended: None, elapsed_millis: 299900 });
    assert!(matches!(step, Step::Do(CommandAction::Sleep { millis: 100 })));
    assert!(matches!(flow.step(CommandEvent::Slept), Step::Do(CommandAction::Poll)));
    let step = flow.step(CommandEvent::Polled { ended: Some(Some(3)), elapsed_millis: 400000 });
    assert!(matches!(step, Step::Return(Ok((3, Some(4711))))));
    let (mut flow, _) = spawned(&runner(), None);
    let step = flow.step(CommandEvent::Polled { ended: Some(None), elapsed_millis: 0 });
    assert!(matches!(step, Step::Return(Ok((1, Some(4711))))));
}

#[test]
fn vm_has_limited_time() {
    let (mut flow, _) = spawned(&limited(), None);
    let step = flow.step(CommandEvent::Polled { ended: None, elapsed_millis: 300000 });
    assert_eq!(message(step), "VM error: VM execution timed out");
    let (mut flow, _) = spawned(&limited(), None);
    let step = flow.step(CommandEvent::Polled { ended: None, elapsed_millis: 299901 });
    assert!(matches!(step, Step::Do(CommandAction::Sleep { millis: 99 })));
    assert_eq!(message(flow.step(CommandEvent::Slept)), "VM error: VM execution timed out");
}

#[test]
fn vm_is_put_into_its_group() {
    let (mut flow, step) = spawned(&limited(), Some("vyoma-build-vyoma-build-77"));
    assert!(matches!(step, Step::Do(CommandAction::CreateCgroup { id }) if id == "77"));
    let step = flow.step(CommandEvent::Done(Ok(())));
    assert!(matches!(step, Step::Do(CommandAction::SetCpuLimit { id, percent: 100 }) if id == "77"));
    let step = flow.step(CommandEvent::Done(Err(text("x"))));
    assert!(matches!(step, Step::Do(CommandAction::SetMemoryLimit { id, bytes: 536870912 }) if id == "77"));
    let step = flow.step(CommandEvent::Done(Err(text("x"))));
    assert!(matches!(step, Step::Do(CommandAction::AddProcess { id, pid: 4711 }) if id == "77"));
    let step = flow.step(CommandEvent::Done(Err(text("x"))));
    assert!(matches!(step, Step::Do(CommandAction::Poll)));
    let (mut flow, _) = spawned(&limited(), Some("vyoma-build-77"));
    let step = flow.step(CommandEvent::Done(Err(text("no"))));
    assert!(matches!(step, Step::Do(CommandAction::Poll)));
}

#[test]
fn vm_start_errors() {
    let kernel = || BuildError::VmError(text("no kernel"));
    let mut flow = runner().run_command_in_ch("/d", "c", "/b", None);
    flow.step(CommandEvent::Start);
    assert_eq!(message(flow.step(CommandEvent::Found(Err(kernel())))), "VM error: no kernel");
    let mut flow = runner().run_command_in_ch("/d", "c", "/b", None);
    flow.step(CommandEvent::Start);
    flow.step(CommandEvent::Found(Ok(text("/k"))));
    assert_eq!(message(flow.step(CommandEvent::Found(Err(kernel())))), "VM error: no kernel");
    let mut flow = runner().run_command_in_ch("/d", "c", "/b", None);
    flow.step(CommandEvent::Start);
    flow.step(CommandEvent::Found(Ok(text("/k"))));
    flow.step(CommandEvent::Found(Ok(text("/i"))));
    flow.step(CommandEvent::Found(Ok(text("/ch"))));
    assert_eq!(
        message(flow.step(CommandEvent::Spawned(Err(text("perm"))))),
        "VM error: Failed to start cloud-hypervisor: perm"
    );
}

fn waiting() -> VmFlow {
    let r = runner();
    let mut flow = r.execute_in_vm("make", 77);
    let step = flow.step(&r, CommandEvent::Start);
    assert!(matches!(step, Step::Do(CommandAction::BuildInitramfs { command }) if command == "make"));
    let step = flow.step(&r, CommandEvent::Found(Ok(text("/i"))));
    assert!(matches!(step, Step::Do(CommandAction::FindKernel)));
    let step = flow.step(&r, CommandEvent::Found(Ok(text("/k"))));
    assert!(matches!(step, Step::Do(CommandAction::CreateDir { path }) if path == "/work/temp/build-77"));
    let step = flow.step(&r, CommandEvent::Done(Ok(())));
    assert!(matches!(step, Step::Do(CommandAction::FindHypervisor)));
    match flow.step(&r, CommandEvent::Found(Ok(text("/ch")))) {
        Step::Do(CommandAction::Spawn { program, args }) => {
            assert_eq!(program, "/ch");
            let socket = "/work/temp/build-77/ch.sock";
            assert_eq!(args, r.build_ch_args("/work/temp/temp_root.sqfs", "/k", "/i", socket));
        }
        _ => panic!("program expected"),
    }
    let step = flow.step(&r, CommandEvent::Spawned(Ok(4711)));
    assert!(matches!(step, Step::Do(CommandAction::Wait { limit_millis: 300000 })));
    flow
}

#[test]
fn readonly_vm_ends_with_its_code() {
    let r = runner();
    let mut flow = waiting();
    let step = flow.step(&r, CommandEvent::Ended(Ok(Some(5))));
    assert!(matches!(step, Step::Do(CommandAction::RemoveDir { path }) if path == "/work/temp/build-77"));
    assert!(matches!(flow.step(&r, CommandEvent::Done(Err(text("x")))), Step::Return(Ok(5))));
    let mut flow = waiting();
    flow.step(&r, CommandEvent::Ended(Ok(None)));
    assert!(matches!(flow.step(&r, CommandEvent::Done(Ok(()))), Step::Return(Ok(1))));
}

#[test]
fn readonly_vm_errors() {
    let r = runner();
    let mut flow = waiting();
    let step = flow.step(&r, CommandEvent::Ended(Err(text("lost"))));
    assert_eq!(message(step), "VM error: VM process error: lost");
    let mut flow = waiting();
    assert!(matches!(flow.step(&r, CommandEvent::TimedOut), Step::Do(CommandAction::Kill)));
    let step = flow.step(&r, CommandEvent::Done(Ok(())));
    assert_eq!(message(step), "VM error: VM execution timed out");
    let mut flow = r.execute_in_vm("make", 77);
    flow.step(&r, CommandEvent::Start);
    flow.step(&r, CommandEvent::Found(Ok(text("/i"))));
    flow.step(&r, CommandEvent::Found(Ok(text("/k"))));
    let step = flow.step(&r, CommandEvent::Done(Err(text("full"))));
    assert_eq!(message(step), "IO error: full");
    let mut flow = r.execute_in_vm("make", 77);
    flow.step(&r, CommandEvent::Start);
    flow.step(&r, CommandEvent::Found(Ok(text("/i"))));
    flow.step(&r, CommandEvent::Found(Ok(text("/k"))));
    flow.step(&r, CommandEvent::Done(Ok(())));
    flow.step(&r, CommandEvent::Found(Ok(text("/ch"))));
    let step = flow.step(&r, CommandEvent::Spawned(Err(text("perm"))));
    assert_eq!(message(step), "VM error: Failed to start Cloud Hypervisor: perm");
}
