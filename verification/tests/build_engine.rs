use std::sync::Arc;
use vyoma::build::engine::{BuildAction, BuildEvent, BuildFlow};
use vyoma::build::error::BuildError;
use vyoma::build::finalize::BuildResult;
use vyoma::build::instruction::{Instruction, Vyomafile};
use vyoma::build::runner::BuildRunner;
use vyoma::cgroups::CgroupManager;
use vyoma::flow::Step;
use vyoma::image::OciImageConfig;

fn text(s: &str) -> String {
    s.to_string()
}

fn runner() -> BuildRunner {
    BuildRunner::new(text("/work"))
}

fn parsed(instructions: Vec<Instruction>) -> (BuildFlow, Step<BuildAction, BuildResult, BuildError>) {
    let mut flow = runner().build("/ctx/Vyomafile", "/ctx", "me/app:1");
    let step = flow.step(BuildEvent::Start);
    assert!(matches!(step, Step::Do(BuildAction::Parse { path }) if path == "/ctx/Vyomafile"));
    let step = flow.step(BuildEvent::Parsed(Ok(Vyomafile { instructions })));
    (flow, step)
}

fn failure(step: Step<BuildAction, BuildResult, BuildError>) -> String {
    match step {
        Step::Return(Err(e)) => e.message(),
        _ => panic!("error expected"),
    }
}

#[test]
fn new_engine_works_below_its_directory() {
    let r = runner();
    assert_eq!(r.work_dir, "/work");
    assert_eq!(r.temp_dir, "/work/temp");
    assert!(!r.measured);
    assert_eq!(r.signing_key_path, None);
    assert_eq!(r.ext4_cache.get("x"), None);
    assert!(r.cgroups.is_none());
    let d = BuildRunner::default();
    assert_eq!(d.work_dir, "/tmp/vyoma-build");
    assert_eq!(d.temp_dir, "/tmp/vyoma-build/temp");
}

#[test]
fn engine_options() {
    let r = runner()
        .with_measured(true, Some(text("/keys")))
        .with_cgroups(Arc::new(CgroupManager::new()));
    assert!(r.measured);
    assert_eq!(r.signing_key_path, Some(text("/keys")));
    assert!(r.cgroups.is_some());
    assert_eq!(r.work_dir, "/work");
}

#[test]
fn tools_are_found_beside_the_working_directory_first() {
    let r = runner();
    assert_eq!(r.find_kernel_path(true, true).unwrap(), "/work/bin/vmlinux");
    assert_eq!(r.find_kernel_path(false, true).unwrap(), "/usr/lib/vyoma/vmlinux");
    assert_eq!(
        r.find_kernel_path(false, false).unwrap_err().message(),
        "VM error: Kernel not found at /usr/lib/vyoma/vmlinux or local bin"
    );
    assert_eq!(r.find_ch_path(true, false).unwrap(), "/work/bin/cloud-hypervisor");
    assert_eq!(r.find_ch_path(false, true).unwrap(), "/usr/bin/cloud-hypervisor");
    assert_eq!(r.find_ch_path(false, false).unwrap(), "cloud-hypervisor");
}

#[test]
fn hypervisor_arguments_of_a_readonly_vm() {
    assert_eq!(
        runner().build_ch_args("/r.sqfs", "/k", "/i", "/s"),
        vec![
            "--kernel", "/k", "--initramfs", "/i", "--disk", "path=/r.sqfs,readonly=on",
            "--console", "off", "--serial", "tty", "--api-socket", "/s", "--cpus", "boot=1",
            "--memory", "size=512M", "--rng", "src=/dev/urandom",
        ]
    );
}

#[test]
fn base_image_has_to_be_there() {
    let r = runner();
    assert_eq!(
        r.handle_from("me/app:1", true).unwrap(),
        "/work/.vyoma/images/me_app_1/rootfs.sqfs"
    );
    match r.handle_from("a", false) {
        Err(BuildError::ExecutionError(m)) => assert_eq!(
            m,
            "Base image a not found at \"/work/.vyoma/images/a/rootfs.sqfs\""
        ),
        _ => panic!("error expected"),
    }
}

#[test]
fn instructions_are_carried_out_in_order() {
    let (mut flow, step) = parsed(vec![
        Instruction::Env { key: text("A"), value: text("1") },
        Instruction::From { image: text("base") },
        Instruction::VmMeasuredBoot,
        Instruction::Run { command: text("make") },
        Instruction::Cmd { args: vec![text("old")] },
        Instruction::Copy { src: text("f"), dst: text("/f") },
        Instruction::Cmd { args: vec![text("new"), text("x")] },
        Instruction::Entrypoint { args: vec![text("/bin/sh")] },
        Instruction::Workdir { path: text("/srv") },
        Instruction::Env { key: text("B"), value: text("2=3") },
    ]);
    assert!(matches!(step, Step::Do(BuildAction::From { image }) if image == "base"));
    match flow.step(BuildEvent::Rootfs(Ok(text("/base.sqfs")))) {
        Step::Do(BuildAction::Run { rootfs, command }) => {
            assert_eq!(rootfs, "/base.sqfs");
            assert_eq!(command, "make");
        }
        _ => panic!("run expected"),
    }
    match flow.step(BuildEvent::Rootfs(Ok(text("/layer.sqfs")))) {
        Step::Do(BuildAction::Copy { rootfs, context_dir, src, dst }) => {
            assert_eq!(rootfs, "/layer.sqfs");
            assert_eq!(context_dir, "/ctx");
            assert_eq!(src, "f");
            assert_eq!(dst, "/f");
        }
        _ => panic!("copy expected"),
    }
    match flow.step(BuildEvent::Copied(Ok(()))) {
        Step::Do(BuildAction::Finalize { rootfs, image_name, config }) => {
            assert_eq!(rootfs, "/layer.sqfs");
            assert_eq!(image_name, "me/app:1");
            assert_eq!(config.cmd, Some(vec![text("new"), text("x")]));
            assert_eq!(config.entrypoint, Some(vec![text("/bin/sh")]));
            assert_eq!(config.working_dir, Some(text("/srv")));
            assert_eq!(config.env, Some(vec![text("A=1"), text("B=2=3")]));
            assert_eq!(config.exposed_ports, None);
            assert_eq!(config.user, None);
        }
        _ => panic!("finalize expected"),
    }
    let result = BuildResult {
        image_name: text("me/app:1"),
        rootfs_path: text("/r"),
        manifest_path: text("/m"),
        config: OciImageConfig::default(),
        pcr_policy: None,
        manifest_signed: false,
    };
    assert!(matches!(flow.step(BuildEvent::Built(Ok(result))), Step::Return(Ok(r)) if r.rootfs_path == "/r"));
}

#[test]
fn files_without_from_are_refused() {
    let (_, step) = parsed(vec![Instruction::Run { command: text("x") }]);
    assert_eq!(failure(step), "Execution error: RUN instruction without FROM");
    let (_, step) = parsed(vec![Instruction::Copy { src: text("a"), dst: text("b") }]);
    assert_eq!(failure(step), "Execution error: COPY instruction without FROM");
    let (_, step) = parsed(vec![Instruction::Workdir { path: text("/") }]);
    assert_eq!(failure(step), "Execution error: No FROM instruction found");
    let (_, step) = parsed(vec![]);
    assert_eq!(failure(step), "Execution error: No FROM instruction found");
}

#[test]
fn errors_end_the_build() {
    let mut flow = runner().build("/f", "/ctx", "a");
    flow.step(BuildEvent::Start);
    assert_eq!(failure(flow.step(BuildEvent::Parsed(Err(text("line 3"))))), "Parse error: line 3");
    let (mut flow, _) = parsed(vec![Instruction::From { image: text("base") }]);
    let step = flow.step(BuildEvent::Rootfs(Err(BuildError::VmError(text("gone")))));
    assert_eq!(failure(step), "VM error: gone");
    let (mut flow, _) = parsed(vec![
        Instruction::From { image: text("base") },
        Instruction::Copy { src: text("a"), dst: text("b") },
    ]);
    flow.step(BuildEvent::Rootfs(Ok(text("/r"))));
    let step = flow.step(BuildEvent::Copied(Err(BuildError::InjectionError(text("full")))));
    assert_eq!(failure(step), "Injection error: full");
    let (mut flow, _) = parsed(vec![Instruction::From { image: text("base") }]);
    flow.step(BuildEvent::Rootfs(Ok(text("/r"))));
    let step = flow.step(BuildEvent::Built(Err(BuildError::IoError(text("disk")))));
    assert_eq!(failure(step), "IO error: disk");
    assert!(matches!(flow.step(BuildEvent::Start), Step::Unexpected));
}

#[test]
fn second_from_starts_over_with_its_image() {
    let (mut flow, _) = parsed(vec![
        Instruction::From { image: text("one") },
        Instruction::From { image: text("two") },
    ]);
    let step = flow.step(BuildEvent::Rootfs(Ok(text("/one"))));
    assert!(matches!(step, Step::Do(BuildAction::From { image }) if image == "two"));
    let step = flow.step(BuildEvent::Rootfs(Ok(text("/two"))));
    assert!(matches!(step, Step::Do(BuildAction::Finalize { rootfs, .. }) if rootfs == "/two"));
}

#[test]
fn nothing_follows_an_error() {
    let (mut flow, _) = parsed(vec![
        Instruction::From { image: text("base") },
        Instruction::Run { command: text("make") },
    ]);
    let step = flow.step(BuildEvent::Rootfs(Err(BuildError::ExecutionError(text("gone")))));
    assert_eq!(failure(step), "Execution error: gone");
    assert!(matches!(flow.step(BuildEvent::Rootfs(Ok(text("/r")))), Step::Unexpected));
    assert!(matches!(flow.step(BuildEvent::Copied(Ok(()))), Step::Unexpected));
    let again = Vyomafile { instructions: vec![Instruction::From { image: text("base") }] };
    assert!(matches!(flow.step(BuildEvent::Parsed(Ok(again))), Step::Unexpected));
    assert!(matches!(flow.step(BuildEvent::Start), Step::Unexpected));
}

fn instructions(requests: bool) -> Vec<Instruction> {
    let mut list = Vec::new();
    let request = |list: &mut Vec<Instruction>| {
        if requests {
            list.push(Instruction::VmMeasuredBoot);
        }
    };
    request(&mut list);
    list.push(Instruction::From { image: text("base") });
    list.push(Instruction::Env { key: text("A"), value: text("1") });
    request(&mut list);
    request(&mut list);
    list.push(Instruction::Run { command: text("make") });
    list.push(Instruction::Workdir { path: text("/srv") });
    request(&mut list);
    list
}

#[test]
fn measured_boot_request_changes_no_answer() {
    for requests in [false, true] {
        let (mut flow, step) = parsed(instructions(requests));
        assert!(matches!(step, Step::Do(BuildAction::From { image }) if image == "base"));
        let step = flow.step(BuildEvent::Rootfs(Ok(text("/base"))));
        assert!(matches!(step, Step::Do(BuildAction::Run { rootfs, command }) if rootfs == "/base" && command == "make"));
        match flow.step(BuildEvent::Rootfs(Ok(text("/layer")))) {
            Step::Do(BuildAction::Finalize { rootfs, image_name, config }) => {
                assert_eq!(rootfs, "/layer");
                assert_eq!(image_name, "me/app:1");
                assert_eq!(config.env, Some(vec![text("A=1")]));
                assert_eq!(config.working_dir, Some(text("/srv")));
                assert_eq!(config.cmd, None);
            }
            _ => panic!("finalize expected"),
        }
    }
}
