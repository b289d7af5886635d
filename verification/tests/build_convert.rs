use vyoma::build::cache::Ext4Cache;
use vyoma::build::convert::{ConvertAction, ConvertEvent, MountError};
use vyoma::build::copy::{CopyAction, CopyEvent, CopyFlow};
use vyoma::build::error::{BuildError, CommandOutput};
use vyoma::build::runner::BuildRunner;
use vyoma::flow::Step;

fn text(s: &str) -> String {
    s.to_string()
}

fn runner() -> BuildRunner {
    BuildRunner::new(text("/work"))
}

fn output(success: bool, stderr: &str) -> ConvertEvent {
    ConvertEvent::Ran(Ok(CommandOutput { success, stderr: text(stderr) }))
}

fn message<A, T>(step: Step<A, T, BuildError>) -> String {
    match step {
        Step::Return(Err(e)) => e.message(),
        _ => panic!("error expected"),
    }
}

fn command<T>(step: Step<ConvertAction, T, BuildError>) -> Vec<String> {
    match step {
        Step::Do(ConvertAction::Run { program, args }) => {
            let mut all = vec![program];
            all.extend(args);
            all
        }
        _ => panic!("program expected"),
    }
}

#[test]
fn squashfs_is_extracted() {
    let mut flow = runner().extract_squashfs("/r.sqfs", "/out");
    let step = flow.step(ConvertEvent::Start);
    assert!(matches!(step, Step::Do(ConvertAction::CreateDir { path }) if path == "/out"));
    let step = flow.step(ConvertEvent::Done(Ok(())));
    assert_eq!(command(step), vec!["unsquashfs", "-f", "-d", "/out", "/r.sqfs"]);
    assert!(matches!(flow.step(output(true, "")), Step::Return(Ok(()))));
}

#[test]
fn extraction_errors() {
    let mut flow = runner().extract_squashfs("/r.sqfs", "/out");
    flow.step(ConvertEvent::Start);
    let step = flow.step(ConvertEvent::Done(Err(text("full"))));
    assert_eq!(message(step), "Injection error: Failed to create extract dir: full");
    let mut flow = runner().extract_squashfs("/r.sqfs", "/out");
    flow.step(ConvertEvent::Start);
    flow.step(ConvertEvent::Done(Ok(())));
    let step = flow.step(ConvertEvent::Ran(Err(text("missing"))));
    assert_eq!(message(step), "Injection error: Failed to run unsquashfs: missing");
    let mut flow = runner().extract_squashfs("/r.sqfs", "/out");
    flow.step(ConvertEvent::Start);
    flow.step(ConvertEvent::Done(Ok(())));
    let step = flow.step(output(false, "bad magic"));
    assert_eq!(message(step), "Injection error: unsquashfs failed: bad magic");
}

#[test]
fn squashfs_becomes_ext4() {
    let mut flow = runner().squashfs_to_ext4("/r.sqfs", "/r.ext4");
    assert!(matches!(flow.step(ConvertEvent::Start), Step::Do(ConvertAction::MakeTempDir)));
    match flow.step(ConvertEvent::TempDir(Ok(text("/tmp/x")))) {
        Step::Do(ConvertAction::Extract { squashfs, dest }) => {
            assert_eq!(squashfs, "/r.sqfs");
            assert_eq!(dest, "/tmp/x");
        }
        _ => panic!("extraction expected"),
    }
    let step = flow.step(ConvertEvent::Extracted(Ok(())));
    assert_eq!(command(step), vec!["truncate", "-s", "2G", "/r.ext4"]);
    let step = flow.step(output(true, ""));
    assert_eq!(command(step), vec!["mkfs.ext4", "-F", "-d", "/tmp/x", "/r.ext4"]);
    assert!(matches!(flow.step(output(true, "")), Step::Return(Ok(()))));
}

#[test]
fn ext4_conversion_errors() {
    let start = || {
        let mut flow = runner().squashfs_to_ext4("/r.sqfs", "/r.ext4");
        flow.step(ConvertEvent::Start);
        flow
    };
    let mut flow = start();
    let step = flow.step(ConvertEvent::TempDir(Err(text("full"))));
    assert_eq!(message(step), "Execution error: Failed to create temp dir: full");
    let extracted = || {
        let mut flow = start();
        flow.step(ConvertEvent::TempDir(Ok(text("/tmp/x"))));
        flow
    };
    let step = extracted().step(ConvertEvent::Extracted(Err(BuildError::InjectionError(text("x")))));
    assert_eq!(message(step), "Injection error: x");
    let truncating = || {
        let mut flow = extracted();
        flow.step(ConvertEvent::Extracted(Ok(())));
        flow
    };
    let step = truncating().step(ConvertEvent::Ran(Err(text("a"))));
    assert_eq!(message(step), "Execution error: Failed to run truncate: a");
    assert_eq!(message(truncating().step(output(false, "b"))), "Execution error: truncate failed: b");
    let formatting = || {
        let mut flow = truncating();
        flow.step(output(true, ""));
        flow
    };
    let step = formatting().step(ConvertEvent::Ran(Err(text("c"))));
    assert_eq!(message(step), "Execution error: Failed to run mkfs.ext4: c");
    assert_eq!(message(formatting().step(output(false, "d"))), "Execution error: mkfs.ext4 failed: d");
}

#[test]
fn ext4_becomes_squashfs_and_is_unmounted_either_way() {
    for success in vec![true, false] {
        let mut flow = runner().ext4_to_squashfs("/dev/mapper/x", "/l.sqfs");
        assert!(matches!(flow.step(ConvertEvent::Start), Step::Do(ConvertAction::MakeTempDir)));
        match flow.step(ConvertEvent::TempDir(Ok(text("/tmp/m")))) {
            Step::Do(ConvertAction::Mount { device, dir, fstype }) => {
                assert_eq!(device, "/dev/mapper/x");
                assert_eq!(dir, "/tmp/m");
                assert_eq!(fstype, "ext4");
            }
            _ => panic!("mount expected"),
        }
        let step = flow.step(ConvertEvent::Mounted(Ok(())));
        assert_eq!(
            command(step),
            vec!["mksquashfs", "/tmp/m", "/l.sqfs", "-comp", "zstd", "-quiet"]
        );
        let step = flow.step(output(success, "broken"));
        assert!(matches!(step, Step::Do(ConvertAction::Unmount { dir }) if dir == "/tmp/m"));
        let step = flow.step(ConvertEvent::Done(Err(text("busy"))));
        if success {
            assert!(matches!(step, Step::Return(Ok(()))));
        } else {
            assert_eq!(message(step), "Execution error: mksquashfs failed: broken");
        }
    }
}

#[test]
fn squashing_errors() {
    let mut flow = runner().ext4_to_squashfs("/d", "/l");
    flow.step(ConvertEvent::Start);
    let step = flow.step(ConvertEvent::TempDir(Err(text("full"))));
    assert_eq!(message(step), "Execution error: Failed to create mount dir: full");
    let mounting = || {
        let mut flow = runner().ext4_to_squashfs("/d", "/l");
        flow.step(ConvertEvent::Start);
        flow.step(ConvertEvent::TempDir(Ok(text("/m"))));
        flow
    };
    let step = mounting().step(ConvertEvent::Mounted(Err(MountError::Path(text("nul")))));
    assert_eq!(message(step), "Execution error: CString error: nul");
    let step = mounting().step(ConvertEvent::Mounted(Err(MountError::System(text("perm")))));
    assert_eq!(message(step), "Execution error: mount syscall failed: perm");
    let mut flow = mounting();
    flow.step(ConvertEvent::Mounted(Ok(())));
    let step = flow.step(ConvertEvent::Ran(Err(text("missing"))));
    assert_eq!(message(step), "Execution error: Failed to execute mksquashfs: missing");
}

#[test]
fn conversion_is_cached_once_it_is_made() {
    let mut cache = Ext4Cache::new();
    let mut flow = runner().create_cached_ext4("/img/a:b.sqfs", "/img/a:b.sqfs");
    let step = flow.step(&mut cache, ConvertEvent::Start);
    assert!(matches!(step, Step::Do(ConvertAction::CreateDir { path }) if path == "/work/ext4-cache"));
    let step = flow.step(&mut cache, ConvertEvent::Done(Ok(())));
    let file = "/work/ext4-cache/_img_a_b.sqfs.ext4";
    assert!(matches!(step, Step::Do(ConvertAction::Probe { path }) if path == file));
    match flow.step(&mut cache, ConvertEvent::Probed(false)) {
        Step::Do(ConvertAction::ToExt4 { squashfs, ext4 }) => {
            assert_eq!(squashfs, "/img/a:b.sqfs");
            assert_eq!(ext4, file);
        }
        _ => panic!("conversion expected"),
    }
    assert_eq!(cache.get("/img/a:b.sqfs"), None);
    let step = flow.step(&mut cache, ConvertEvent::Converted(Ok(())));
    assert!(matches!(step, Step::Return(Ok(path)) if path == file));
    assert_eq!(cache.get("/img/a:b.sqfs"), Some(text(file)));
    assert_eq!(cache.get("/img/a"), None);
}

#[test]
fn existing_conversion_is_used_without_an_entry() {
    let mut cache = Ext4Cache::new();
    let mut flow = runner().create_cached_ext4("/a", "k\\ey");
    flow.step(&mut cache, ConvertEvent::Start);
    flow.step(&mut cache, ConvertEvent::Done(Ok(())));
    let step = flow.step(&mut cache, ConvertEvent::Probed(true));
    assert!(matches!(step, Step::Return(Ok(path)) if path == "/work/ext4-cache/k_ey.ext4"));
    assert_eq!(cache.get("k\\ey"), None);
}

#[test]
fn cache_errors() {
    let mut cache = Ext4Cache::new();
    let mut flow = runner().create_cached_ext4("/a", "a");
    flow.step(&mut cache, ConvertEvent::Start);
    let step = flow.step(&mut cache, ConvertEvent::Done(Err(text("full"))));
    assert_eq!(message(step), "Execution error: Failed to create cache dir: full");
    let mut flow = runner().create_cached_ext4("/a", "a");
    flow.step(&mut cache, ConvertEvent::Start);
    flow.step(&mut cache, ConvertEvent::Done(Ok(())));
    flow.step(&mut cache, ConvertEvent::Probed(false));
    let step = flow.step(&mut cache, ConvertEvent::Converted(Err(BuildError::VmError(text("x")))));
    assert_eq!(message(step), "VM error: x");
    assert_eq!(cache.get("a"), None);
}

#[test]
fn cache_replaces_entries() {
    let mut cache = Ext4Cache::new();
    cache.insert(text("a"), text("/1"));
    cache.insert(text("b"), text("/2"));
    cache.insert(text("a"), text("/3"));
    assert_eq!(cache.get("a"), Some(text("/3")));
    assert_eq!(cache.get("b"), Some(text("/2")));
}

fn copying() -> CopyFlow {
    let mut flow = runner().handle_copy("/r.sqfs", "/ctx", "etc/app.conf", "//etc/app/app.conf");
    assert!(matches!(flow.step(CopyEvent::Start), Step::Do(CopyAction::MakeTempDir)));
    match flow.step(CopyEvent::TempDir(Ok(text("/tmp/e")))) {
        Step::Do(CopyAction::Extract { squashfs, dest }) => {
            assert_eq!(squashfs, "/r.sqfs");
            assert_eq!(dest, "/tmp/e");
        }
        _ => panic!("extraction expected"),
    }
    let step = flow.step(CopyEvent::Extracted(Ok(())));
    assert!(matches!(step, Step::Do(CopyAction::Probe { path }) if path == "/ctx/etc/app.conf"));
    flow
}

fn copied() -> CopyFlow {
    let mut flow = copying();
    let step = flow.step(CopyEvent::Probed(true));
    assert!(matches!(step, Step::Do(CopyAction::CreateDir { path }) if path == "/tmp/e/etc/app"));
    match flow.step(CopyEvent::Done(Ok(()))) {
        Step::Do(CopyAction::CopyFile { from, to }) => {
            assert_eq!(from, "/ctx/etc/app.conf");
            assert_eq!(to, "/tmp/e/etc/app/app.conf");
        }
        _ => panic!("copy expected"),
    }
    flow
}

#[test]
fn file_is_injected() {
    let mut flow = copied();
    let layer = match flow.step(CopyEvent::Done(Ok(()))) {
        Step::Do(CopyAction::CreateSquashfs { dir, squashfs }) => {
            assert_eq!(dir, "/tmp/e");
            squashfs
        }
        _ => panic!("squashfs expected"),
    };
    assert!(layer.starts_with("/work/temp/layer_"));
    assert!(layer.ends_with("_injected.sqfs"));
    let stamp = &layer["/work/temp/layer_".len()..layer.len() - "_injected.sqfs".len()];
    assert!(stamp.parse::<i64>().unwrap() > 1_500_000_000);
    match flow.step(CopyEvent::Done(Ok(()))) {
        Step::Do(CopyAction::CopyFile { from, to }) => {
            assert_eq!(from, layer);
            assert_eq!(to, "/r.sqfs");
        }
        _ => panic!("copy expected"),
    }
    assert!(matches!(flow.step(CopyEvent::Done(Ok(()))), Step::Return(Ok(()))));
}

#[test]
fn injected_layer_has_the_name_that_it_is_given() {
    let mut flow = copied();
    match flow.squash_as("layer_7_injected.sqfs") {
        Step::Do(CopyAction::CreateSquashfs { squashfs, .. }) => {
            assert_eq!(squashfs, "/work/temp/layer_7_injected.sqfs")
        }
        _ => panic!("squashfs expected"),
    }
}

#[test]
fn injection_errors() {
    let mut flow = runner().handle_copy("/r.sqfs", "/ctx", "a", "b");
    flow.step(CopyEvent::Start);
    let step = flow.step(CopyEvent::TempDir(Err(text("full"))));
    assert_eq!(message(step), "Injection error: Failed to create temp dir: full");
    let mut flow = runner().handle_copy("/r.sqfs", "/ctx", "a", "b");
    flow.step(CopyEvent::Start);
    flow.step(CopyEvent::TempDir(Ok(text("/tmp/e"))));
    let step = flow.step(CopyEvent::Extracted(Err(BuildError::InjectionError(text("x")))));
    assert_eq!(message(step), "Injection error: x");
    let step = copying().step(CopyEvent::Probed(false));
    assert_eq!(message(step), "Injection error: Source path etc/app.conf does not exist");
    let mut flow = copying();
    flow.step(CopyEvent::Probed(true));
    let step = flow.step(CopyEvent::Done(Err(text("a"))));
    assert_eq!(message(step), "Injection error: Failed to create dest dir: a");
    let step = copied().step(CopyEvent::Done(Err(text("b"))));
    assert_eq!(message(step), "Injection error: Failed to copy file: b");
    let mut flow = copied();
    flow.step(CopyEvent::Done(Ok(())));
    let step = flow.step(CopyEvent::Done(Err(text("c"))));
    assert_eq!(message(step), "Injection error: Failed to create new squashfs: c");
    let mut flow = copied();
    flow.step(CopyEvent::Done(Ok(())));
    flow.step(CopyEvent::Done(Ok(())));
    let step = flow.step(CopyEvent::Done(Err(text("d"))));
    assert_eq!(message(step), "Injection error: Failed to update rootfs: d");
}
