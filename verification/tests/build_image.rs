use std::collections::HashMap;
use vyoma::build::error::BuildError;
use vyoma::build::finalize::{FinalizeAction, FinalizeEvent, FinalizeFlow, FinalizeStep};
use vyoma::build::measure::{
    MeasureAction, MeasureEvent, MeasureFlow, MeasureStep, MeasureVmConfig,
};
use vyoma::build::runner::BuildRunner;
use vyoma::build::signing::{KeyAction, KeyEvent, KeyFlow, KeyStep};
use vyoma::flow::Step;
use vyoma::image::OciImageConfig;

fn text(s: &str) -> String {
    s.to_string()
}

fn runner() -> BuildRunner {
    BuildRunner::new(text("/work"))
}

fn message<A, T>(step: Step<A, T, BuildError>) -> String {
    match step {
        Step::Return(Err(e)) => e.message(),
        _ => panic!("error expected"),
    }
}

fn pcrs() -> HashMap<u32, String> {
    HashMap::from([(0, text("aa")), (7, text("bb"))])
}

fn hashed(measured: bool) -> (FinalizeFlow, FinalizeStep<u8>) {
    let mut config = OciImageConfig::default();
    config.cmd = Some(vec![text("sh")]);
    let r = runner().with_measured(measured, None);
    let mut flow = r.finalize_image("/l.sqfs", "me/app:1", &config);
    let step = flow.step::<u8>(FinalizeEvent::Start);
    assert!(matches!(step, Step::Do(FinalizeAction::CreateDir { path }) if path == "/work/.vyoma/images/me_app_1"));
    match flow.step::<u8>(FinalizeEvent::Done(Ok(()))) {
        Step::Do(FinalizeAction::Copy { from, to }) => {
            assert_eq!(from, "/l.sqfs");
            assert_eq!(to, "/work/.vyoma/images/me_app_1/rootfs.sqfs");
            assert_eq!(to, r.handle_from("me/app:1", true).unwrap());
        }
        _ => panic!("copy expected"),
    }
    let step = flow.step::<u8>(FinalizeEvent::Done(Ok(())));
    assert!(matches!(step, Step::Do(FinalizeAction::Hash { path }) if path == "/work/.vyoma/images/me_app_1/rootfs.sqfs"));
    let step = flow.step::<u8>(FinalizeEvent::Hashed(Ok(text("00ff"))));
    (flow, step)
}

fn sized(measured: bool) -> FinalizeFlow {
    let (mut flow, mut step) = hashed(measured);
    if measured {
        assert!(matches!(step, Step::Do(FinalizeAction::Measure { rootfs }) if rootfs == "/work/.vyoma/images/me_app_1/rootfs.sqfs"));
        step = flow.step(FinalizeEvent::Measured(Ok(pcrs())));
    }
    assert!(matches!(step, Step::Do(FinalizeAction::Size { path }) if path == "/work/.vyoma/images/me_app_1/rootfs.sqfs"));
    flow
}

fn encoded(measured: bool) -> FinalizeFlow {
    let mut flow = sized(measured);
    match flow.step::<u8>(FinalizeEvent::Sized(Ok(4096))) {
        Step::Do(FinalizeAction::Encode { manifest }) => {
            assert_eq!(manifest.architecture, "amd64");
            assert_eq!(manifest.digest, "sha256:00ff");
            assert_eq!(manifest.size, 4096);
            assert_eq!(manifest.config.cmd, Some(vec![text("sh")]));
            assert_eq!(manifest.pcr_policy, if measured { Some(pcrs()) } else { None });
        }
        _ => panic!("manifest expected"),
    }
    match flow.step::<u8>(FinalizeEvent::Encoded(Ok(text("[image]")))) {
        Step::Do(FinalizeAction::Write { path, content }) => {
            assert_eq!(path, "/work/.vyoma/images/me_app_1/vyoma.toml");
            assert_eq!(content, "[image]");
        }
        _ => panic!("write expected"),
    }
    let step = flow.step::<u8>(FinalizeEvent::Done(Ok(())));
    assert!(matches!(step, Step::Do(FinalizeAction::FindKey)));
    flow
}

#[test]
fn unsigned_image() {
    let mut flow = encoded(false);
    match flow.step::<u8>(FinalizeEvent::Key(Ok(None))) {
        Step::Return(Ok(result)) => {
            assert_eq!(result.image_name, "me/app:1");
            assert_eq!(result.rootfs_path, "/work/.vyoma/images/me_app_1/rootfs.sqfs");
            assert_eq!(result.manifest_path, "/work/.vyoma/images/me_app_1/vyoma.toml");
            assert_eq!(result.config.cmd, Some(vec![text("sh")]));
            assert!(result.pcr_policy.is_none());
            assert!(!result.manifest_signed);
        }
        _ => panic!("image expected"),
    }
}

#[test]
fn measured_and_signed_image() {
    let mut flow = encoded(true);
    match flow.step(FinalizeEvent::Key(Ok(Some(3u8)))) {
        Step::Do(FinalizeAction::Sign { manifest, key }) => {
            assert_eq!(key, 3);
            assert_eq!(manifest.digest, "sha256:00ff");
            assert_eq!(manifest.size, 4096);
            assert_eq!(manifest.config.cmd, Some(vec![text("sh")]));
            assert_eq!(manifest.pcr_policy, Some(pcrs()));
        }
        _ => panic!("signature expected"),
    }
    let step = flow.step::<u8>(FinalizeEvent::Done(Ok(())));
    assert!(matches!(step, Step::Do(FinalizeAction::SaveSigned { path }) if path == "/work/.vyoma/images/me_app_1/vyoma.toml.sig"));
    match flow.step::<u8>(FinalizeEvent::Done(Ok(()))) {
        Step::Return(Ok(result)) => {
            assert!(result.manifest_signed);
            assert_eq!(result.pcr_policy, Some(pcrs()));
        }
        _ => panic!("image expected"),
    }
}

#[test]
fn measured_image_has_to_be_signed() {
    let step = encoded(true).step::<u8>(FinalizeEvent::Key(Ok(None)));
    assert_eq!(
        message(step),
        "Execution error: Measured build requested but no signing key available"
    );
}

#[test]
fn image_errors() {
    let r = runner();
    let config = OciImageConfig::default();
    let mut flow = r.finalize_image("/l", "a", &config);
    flow.step::<u8>(FinalizeEvent::Start);
    let step = flow.step::<u8>(FinalizeEvent::Done(Err(text("e"))));
    assert_eq!(message(step), "IO error: e");
    let mut flow = r.finalize_image("/l", "a", &config);
    flow.step::<u8>(FinalizeEvent::Start);
    flow.step::<u8>(FinalizeEvent::Done(Ok(())));
    let step = flow.step::<u8>(FinalizeEvent::Done(Err(text("e"))));
    assert_eq!(message(step), "IO error: e");
    let mut flow = r.finalize_image("/l", "a", &config);
    flow.step::<u8>(FinalizeEvent::Start);
    flow.step::<u8>(FinalizeEvent::Done(Ok(())));
    flow.step::<u8>(FinalizeEvent::Done(Ok(())));
    let step = flow.step::<u8>(FinalizeEvent::Hashed(Err(text("e"))));
    assert_eq!(message(step), "Execution error: Failed to compute hash: e");
    let (mut flow, _) = hashed(true);
    let step = flow.step::<u8>(FinalizeEvent::Measured(Err(BuildError::VmError(text("e")))));
    assert_eq!(message(step), "VM error: e");
    let step = sized(false).step::<u8>(FinalizeEvent::Sized(Err(text("e"))));
    assert_eq!(message(step), "IO error: e");
    let mut flow = sized(false);
    flow.step::<u8>(FinalizeEvent::Sized(Ok(1)));
    let step = flow.step::<u8>(FinalizeEvent::Encoded(Err(text("e"))));
    assert_eq!(message(step), "Execution error: e");
    let mut flow = sized(false);
    flow.step::<u8>(FinalizeEvent::Sized(Ok(1)));
    flow.step::<u8>(FinalizeEvent::Encoded(Ok(text(""))));
    let step = flow.step::<u8>(FinalizeEvent::Done(Err(text("e"))));
    assert_eq!(message(step), "IO error: e");
    let step = encoded(false).step::<u8>(FinalizeEvent::Key(Err(BuildError::ExecutionError(text("e")))));
    assert_eq!(message(step), "Execution error: e");
    let mut flow = encoded(false);
    flow.step(FinalizeEvent::Key(Ok(Some(3u8))));
    let step = flow.step::<u8>(FinalizeEvent::Done(Err(text("e"))));
    assert_eq!(message(step), "Execution error: Failed to sign manifest: e");
    let mut flow = encoded(false);
    flow.step(FinalizeEvent::Key(Ok(Some(3u8))));
    flow.step::<u8>(FinalizeEvent::Done(Ok(())));
    let step = flow.step::<u8>(FinalizeEvent::Done(Err(text("e"))));
    assert_eq!(message(step), "Execution error: Failed to save signed manifest: e");
}

fn probe(step: KeyStep<u8>) -> String {
    match step {
        Step::Do(KeyAction::Probe { path }) => path,
        _ => panic!("probe expected"),
    }
}

fn key_search(dir: Option<&str>) -> (KeyFlow<u8>, String) {
    let r = runner().with_measured(false, dir.map(|d| d.to_string()));
    let mut flow = r.resolve_signing_key::<u8>();
    let path = probe(flow.step(KeyEvent::Start));
    (flow, path)
}

fn loads(flow: &mut KeyFlow<u8>, step: KeyStep<u8>, dir: &str) {
    assert!(matches!(step, Step::Do(KeyAction::Read { path }) if path == format!("{}/build_signing_key", dir)));
    let step = flow.step(KeyEvent::Content(Ok(vec![1, 2])));
    assert!(matches!(step, Step::Do(KeyAction::Read { path }) if path == format!("{}/build_signing_key.pub", dir)));
    match flow.step(KeyEvent::Content(Ok(vec![3]))) {
        Step::Do(KeyAction::Load { seed, public }) => {
            assert_eq!(seed, vec![1, 2]);
            assert_eq!(public, vec![3]);
        }
        _ => panic!("load expected"),
    }
    assert!(matches!(flow.step(KeyEvent::Loaded(Ok(42))), Step::Return(Ok(Some(42)))));
}

#[test]
fn complete_key_directory_is_loaded() {
    let (mut flow, path) = key_search(Some("/keys"));
    assert_eq!(path, "/keys");
    assert_eq!(probe(flow.step(KeyEvent::Probed(true))), "/keys/build_signing_key");
    assert_eq!(probe(flow.step(KeyEvent::Probed(true))), "/keys/build_signing_key.pub");
    let step = flow.step(KeyEvent::Probed(true));
    loads(&mut flow, step, "/keys");
}

#[test]
fn incomplete_key_directory_falls_back() {
    for present in vec![vec![false], vec![true, false]] {
        let (mut flow, _) = key_search(Some("/keys"));
        let mut path = probe(flow.step(KeyEvent::Probed(true)));
        for p in present {
            path = probe(flow.step(KeyEvent::Probed(p)));
        }
        assert_eq!(path, "/work/build_signing_key");
        assert_eq!(probe(flow.step(KeyEvent::Probed(true))), "/work/build_signing_key.pub");
        let step = flow.step(KeyEvent::Probed(true));
        loads(&mut flow, step, "/work");
    }
}

/// Generates a key in this directory, from the step that creates it on.
fn generates(flow: &mut KeyFlow<u8>, step: KeyStep<u8>, dir: &str) {
    assert!(matches!(step, Step::Do(KeyAction::CreateDir { path }) if path == dir));
    assert!(matches!(flow.step(KeyEvent::Done(Ok(()))), Step::Do(KeyAction::Generate)));
    match flow.step(KeyEvent::Generated { key: 42, seed: vec![1, 2], public: vec![3] }) {
        Step::Do(KeyAction::Write { path, content }) => {
            assert_eq!(path, format!("{}/build_signing_key.pub", dir));
            assert_eq!(content, vec![3]);
        }
        _ => panic!("write expected"),
    }
    match flow.step(KeyEvent::Done(Ok(()))) {
        Step::Do(KeyAction::Write { path, content }) => {
            assert_eq!(path, format!("{}/build_signing_key", dir));
            assert_eq!(content, vec![1, 2]);
        }
        _ => panic!("write expected"),
    }
    match flow.step(KeyEvent::Done(Ok(()))) {
        Step::Do(KeyAction::SetMode { path, mode }) => {
            assert_eq!(path, format!("{}/build_signing_key", dir));
            assert_eq!(mode, 0o600);
        }
        _ => panic!("permissions expected"),
    }
    assert!(matches!(flow.step(KeyEvent::Done(Err(text("x")))), Step::Return(Ok(Some(42)))));
}

#[test]
fn no_key_at_all() {
    let (mut flow, path) = key_search(None);
    assert_eq!(path, "/work/build_signing_key");
    let step = flow.step(KeyEvent::Probed(false));
    generates(&mut flow, step, "/work");
    let (mut flow, _) = key_search(None);
    flow.step(KeyEvent::Probed(true));
    let step = flow.step(KeyEvent::Probed(false));
    generates(&mut flow, step, "/work");
}

#[test]
fn incomplete_key_directory_gets_a_new_key() {
    let answers = vec![
        vec![true, false],
        vec![true, false, true],
        vec![true, true, false],
        vec![true, true, false, true],
    ];
    for list in answers {
        let (mut flow, _) = key_search(Some("/keys"));
        for present in list {
            probe(flow.step(KeyEvent::Probed(present)));
        }
        let step = flow.step(KeyEvent::Probed(false));
        generates(&mut flow, step, "/keys");
    }
}

fn generated() -> KeyFlow<u8> {
    let (mut flow, _) = key_search(Some("/keys"));
    let step = flow.step(KeyEvent::Probed(false));
    assert!(matches!(step, Step::Do(KeyAction::CreateDir { path }) if path == "/keys"));
    assert!(matches!(flow.step(KeyEvent::Done(Ok(()))), Step::Do(KeyAction::Generate)));
    match flow.step(KeyEvent::Generated { key: 42, seed: vec![1, 2], public: vec![3] }) {
        Step::Do(KeyAction::Write { path, content }) => {
            assert_eq!(path, "/keys/build_signing_key.pub");
            assert_eq!(content, vec![3]);
        }
        _ => panic!("write expected"),
    }
    flow
}

#[test]
fn missing_key_directory_gets_a_new_key() {
    let (mut flow, _) = key_search(Some("/keys"));
    let step = flow.step(KeyEvent::Probed(false));
    generates(&mut flow, step, "/keys");
}

#[test]
fn key_errors() {
    let (mut flow, _) = key_search(Some("/keys"));
    flow.step(KeyEvent::Probed(false));
    let step = flow.step(KeyEvent::Done(Err(text("e"))));
    assert_eq!(message(step), "Execution error: Failed to create key dir: e");
    let step = generated().step(KeyEvent::Done(Err(text("e"))));
    assert_eq!(message(step), "Execution error: Failed to save public key: e");
    let mut flow = generated();
    flow.step(KeyEvent::Done(Ok(())));
    let step = flow.step(KeyEvent::Done(Err(text("e"))));
    assert_eq!(message(step), "Execution error: Failed to save signing key: e");
    let reading = || {
        let (mut flow, _) = key_search(None);
        flow.step(KeyEvent::Probed(true));
        flow.step(KeyEvent::Probed(true));
        flow
    };
    let step = reading().step(KeyEvent::Content(Err(text("e"))));
    assert_eq!(message(step), "Execution error: Failed to read signing key: e");
    let mut flow = reading();
    flow.step(KeyEvent::Content(Ok(vec![])));
    let step = flow.step(KeyEvent::Content(Err(text("e"))));
    assert_eq!(message(step), "Execution error: Failed to read public key: e");
    let mut flow = reading();
    flow.step(KeyEvent::Content(Ok(vec![])));
    flow.step(KeyEvent::Content(Ok(vec![])));
    let step = flow.step(KeyEvent::Loaded(Err(text("e"))));
    assert_eq!(message(step), "Execution error: Failed to load signing key: e");
}

fn done(flow: &mut MeasureFlow) -> MeasureStep {
    flow.step(MeasureEvent::Done(Ok(())))
}

fn vtpm_started() -> MeasureFlow {
    let mut flow = runner().measure_boot_pcr("/r.sqfs");
    let step = flow.step(MeasureEvent::Start);
    assert!(matches!(step, Step::Do(MeasureAction::CreateDir { path }) if path == "/work/temp/measure-vm"));
    assert!(matches!(done(&mut flow), Step::Do(MeasureAction::FindKernel)));
    match flow.step(MeasureEvent::Found(Ok(text("/k")))) {
        Step::Do(MeasureAction::CreateVtpm { vm, dir }) => {
            assert_eq!(vm, "measure-vm");
            assert_eq!(dir, "/work/temp");
        }
        _ => panic!("TPM expected"),
    }
    assert!(matches!(done(&mut flow), Step::Do(MeasureAction::StartVtpm)));
    match flow.step(MeasureEvent::VtpmStarted(Ok(text("/tpm.sock")))) {
        Step::Do(MeasureAction::ProbeAll { paths }) => assert_eq!(
            paths,
            vec![
                "/usr/share/OVMF/OVMF_CODE.fd",
                "/usr/share/qemu/ovmf-x64/OVMF_CODE.fd",
                "/usr/share/edk2/ovmf/x64/OVMF_CODE.fd",
            ]
        ),
        _ => panic!("probes expected"),
    }
    flow
}

fn vm_spawned(present: Vec<bool>) -> (MeasureFlow, Vec<String>) {
    let mut flow = vtpm_started();
    let step = flow.step(MeasureEvent::ProbedAll(present));
    assert!(matches!(step, Step::Do(MeasureAction::FindHypervisor)));
    match flow.step(MeasureEvent::Found(Ok(text("/ch")))) {
        Step::Do(MeasureAction::Spawn { program, args }) => {
            assert_eq!(program, "/ch");
            (flow, args)
        }
        _ => panic!("program expected"),
    }
}

fn socket_asked(present: Vec<bool>) -> MeasureFlow {
    let (mut flow, _) = vm_spawned(present);
    let step = done(&mut flow);
    assert!(matches!(step, Step::Do(MeasureAction::Probe { path }) if path == "/work/temp/measure-vm/ch.sock"));
    flow
}

#[test]
fn arguments_of_a_measured_vm() {
    let common = vec![
        "--kernel", "/k", "--memory", "size=512M", "--cpus", "boot=1", "--console", "off",
        "--serial", "tty", "--api-socket", "/work/temp/measure-vm/ch.sock", "--rng",
        "src=/dev/urandom", "--tpm", "socket=/tpm.sock", "--disk", "path=/r.sqfs,readonly=on",
    ];
    assert_eq!(vm_spawned(vec![false, false, false]).1, common);
    let mut with_firmware = common.clone();
    with_firmware.push("--firmware");
    with_firmware.push("/usr/share/qemu/ovmf-x64/OVMF_CODE.fd");
    assert_eq!(vm_spawned(vec![false, true, true]).1, with_firmware);
}

#[test]
fn boot_is_measured() {
    let mut flow = socket_asked(vec![false; 3]);
    let step = flow.step(MeasureEvent::Probed { present: false, elapsed_nanos: 10_000_000_000 });
    assert!(matches!(step, Step::Do(MeasureAction::Sleep { millis: 100 })));
    let step = flow.step(MeasureEvent::Slept);
    assert!(matches!(step, Step::Do(MeasureAction::Probe { .. })));
    let step = flow.step(MeasureEvent::Probed { present: true, elapsed_nanos: 20_000_000_000 });
    assert!(matches!(step, Step::Do(MeasureAction::OpenClient { socket }) if socket == "/work/temp/measure-vm/ch.sock"));
    match done(&mut flow) {
        Step::Do(MeasureAction::Boot { config, limit_millis }) => {
            assert_eq!(limit_millis, 30000);
            assert_eq!(config.boot_vcpus, 1);
            assert_eq!(config.max_vcpus, 1);
            assert_eq!(config.memory_size, 512 * 1024 * 1024);
            assert!(config.memory_shared);
            assert_eq!(config.kernel, "/k");
            assert_eq!(
                config.cmdline,
                "console=ttyS0 reboot=k panic=1 root=/dev/vda rw init=/bin/sh"
            );
            assert_eq!(config.disk_path, "/r.sqfs");
            assert!(config.disk_readonly);
            assert_eq!(config.tpm_socket, "/tpm.sock");
        }
        _ => panic!("boot expected"),
    }
    let step = flow.step(MeasureEvent::Booted);
    assert!(matches!(step, Step::Do(MeasureAction::Sleep { millis: 5000 })));
    let step = flow.step(MeasureEvent::Slept);
    assert!(matches!(step, Step::Do(MeasureAction::ReadPcrs { indices }) if indices == vec![0, 1, 4, 5, 7, 9, 10, 14]));
    assert!(matches!(flow.step(MeasureEvent::Pcrs(Ok(pcrs()))), Step::Do(MeasureAction::Kill)));
    let step = flow.step(MeasureEvent::Done(Err(text("x"))));
    assert!(matches!(step, Step::Do(MeasureAction::Reap)));
    assert!(matches!(done(&mut flow), Step::Do(MeasureAction::StopVtpm)));
    let step = done(&mut flow);
    assert!(matches!(step, Step::Do(MeasureAction::RemoveDir { path }) if path == "/work/temp/measure-vm"));
    match done(&mut flow) {
        Step::Return(Ok(values)) => {
            assert_eq!(values, pcrs());
        }
        _ => panic!("registers expected"),
    }
}

#[test]
fn socket_has_to_appear() {
    let mut flow = socket_asked(vec![false; 3]);
    let step = flow.step(MeasureEvent::Probed { present: false, elapsed_nanos: 10_000_000_001 });
    assert!(matches!(step, Step::Do(MeasureAction::Kill)));
    assert_eq!(
        message(done(&mut flow)),
        "Execution error: Timed out waiting for Cloud Hypervisor socket"
    );
}

#[test]
fn measurement_errors() {
    let err = || MeasureEvent::Done(Err(text("e")));
    let vm_error = || BuildError::VmError(text("gone"));
    let mut flow = runner().measure_boot_pcr("/r");
    flow.step(MeasureEvent::Start);
    assert_eq!(message(flow.step(err())), "Execution error: Failed to create measure VM dir: e");
    let mut flow = runner().measure_boot_pcr("/r");
    flow.step(MeasureEvent::Start);
    done(&mut flow);
    assert_eq!(
        message(flow.step(MeasureEvent::Found(Err(vm_error())))),
        "Execution error: Kernel not found: VM error: gone"
    );
    let mut flow = runner().measure_boot_pcr("/r");
    flow.step(MeasureEvent::Start);
    done(&mut flow);
    flow.step(MeasureEvent::Found(Ok(text("/k"))));
    assert_eq!(message(flow.step(err())), "Execution error: Failed to create vTPM: e");
    let mut flow = runner().measure_boot_pcr("/r");
    flow.step(MeasureEvent::Start);
    done(&mut flow);
    flow.step(MeasureEvent::Found(Ok(text("/k"))));
    done(&mut flow);
    assert_eq!(
        message(flow.step(MeasureEvent::VtpmStarted(Err(text("e"))))),
        "Execution error: Failed to start vTPM: e"
    );
    let mut flow = vtpm_started();
    flow.step(MeasureEvent::ProbedAll(vec![]));
    assert_eq!(message(flow.step(MeasureEvent::Found(Err(vm_error())))), "VM error: gone");
    let (mut flow, _) = vm_spawned(vec![]);
    assert_eq!(message(flow.step(err())), "Execution error: Failed to start cloud-hypervisor: e");
}

/// Ends the VM, from the step that kills it on, and gives the last answer.
fn ended(flow: &mut MeasureFlow, step: MeasureStep) -> MeasureStep {
    assert!(matches!(step, Step::Do(MeasureAction::Kill)));
    assert!(matches!(done(flow), Step::Do(MeasureAction::Reap)));
    assert!(matches!(done(flow), Step::Do(MeasureAction::StopVtpm)));
    let step = done(flow);
    assert!(matches!(step, Step::Do(MeasureAction::RemoveDir { path }) if path == "/work/temp/measure-vm"));
    done(flow)
}

#[test]
fn vm_is_ended_after_measurement_errors() {
    let mut flow = socket_asked(vec![]);
    flow.step(MeasureEvent::Probed { present: true, elapsed_nanos: 0 });
    let step = flow.step(MeasureEvent::Done(Err(text("e"))));
    assert_eq!(
        message(ended(&mut flow, step)),
        "Execution error: Failed to build HTTP client: e"
    );
    let mut flow = socket_asked(vec![]);
    flow.step(MeasureEvent::Probed { present: true, elapsed_nanos: 0 });
    done(&mut flow);
    flow.step(MeasureEvent::Booted);
    flow.step(MeasureEvent::Slept);
    let step = flow.step(MeasureEvent::Pcrs(Err(text("e"))));
    assert_eq!(message(ended(&mut flow, step)), "Execution error: Failed to read PCRs: e");
}

#[test]
fn request_for_a_measured_vm_is_json() {
    let config = MeasureVmConfig {
        boot_vcpus: 1,
        max_vcpus: 2,
        memory_size: 536870912,
        memory_shared: true,
        kernel: text("/k \"quoted\"\n"),
        cmdline: text("console=ttyS0"),
        disk_path: text("C:\\r.sqfs"),
        disk_readonly: false,
        tpm_socket: text("/tpm.sock"),
    };
    assert_eq!(
        config.request_body(),
        "{\"disks\":[{\"path\":\"C:\\\\r.sqfs\",\"readonly\":false}],\"memory\":{\"shared\":true,\"size\":536870912},\"payload\":{\"cmdline\":\"console=ttyS0\",\"kernel\":\"/k \\\"quoted\\\"\\n\"},\"tpm\":{\"socket\":\"/tpm.sock\"},\"vcpu\":{\"boot_vcpus\":1,\"max_vcpus\":2}}"
    );
    let value: serde_json::Value = serde_json::from_str(&config.request_body()).unwrap();
    assert_eq!(value["vcpu"]["boot_vcpus"], 1);
    assert_eq!(value["vcpu"]["max_vcpus"], 2);
    assert_eq!(value["memory"]["size"], 512 * 1024 * 1024);
    assert_eq!(value["memory"]["shared"], true);
    assert_eq!(value["payload"]["kernel"], "/k \"quoted\"\n");
    assert_eq!(value["payload"]["cmdline"], "console=ttyS0");
    assert_eq!(value["disks"][0]["path"], "C:\\r.sqfs");
    assert_eq!(value["disks"][0]["readonly"], false);
    assert_eq!(value["tpm"]["socket"], "/tpm.sock");
    assert_eq!(value.to_string(), config.request_body());
}

#[test]
fn control_characters_are_escaped_in_a_request() {
    let mut config = MeasureVmConfig {
        boot_vcpus: 1,
        max_vcpus: 1,
        memory_size: 1,
        memory_shared: false,
        kernel: text(""),
        cmdline: text("\u{0}\u{1}\u{8}\t\n\u{b}\u{c}\r\u{1f} !/\u{7f}\u{e9}"),
        disk_path: text("\\\""),
        disk_readonly: true,
        tpm_socket: text(""),
    };
    assert_eq!(
        config.request_body(),
        "{\"disks\":[{\"path\":\"\\\\\\\"\",\"readonly\":true}],\"memory\":{\"shared\":false,\"size\":1},\"payload\":{\"cmdline\":\"\\u0000\\u0001\\b\\t\\n\\u000b\\f\\r\\u001f !/\u{7f}\u{e9}\",\"kernel\":\"\"},\"tpm\":{\"socket\":\"\"},\"vcpu\":{\"boot_vcpus\":1,\"max_vcpus\":1}}"
    );
    for code in 0u32..0x20 {
        let c = char::from_u32(code).unwrap();
        config.cmdline = text(&c.to_string());
        let short = match c {
            '\u{8}' => text("\\b"),
            '\t' => text("\\t"),
            '\n' => text("\\n"),
            '\u{c}' => text("\\f"),
            '\r' => text("\\r"),
            _ => format!("\\u{:04x}", code),
        };
        assert!(config.request_body().contains(&format!("\"cmdline\":\"{}\",", short)));
    }
}
