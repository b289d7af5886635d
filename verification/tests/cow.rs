use std::io::Write;

use vyoma::cow::{
    AttachAction, AttachEvent, AttachFlow, CowAction, CowEvent, DetachAction, DetachEvent,
    LoopDevice, LoopManager, OsError, StorageError, MAX_RETRIES,
};
use vyoma::flow::Step;

fn os_error(code: i32) -> OsError {
    OsError { code: Some(code), message: format!("os error {}", code) }
}

fn manager() -> LoopManager<()> {
    LoopManager::new(Ok(())).expect("control is open")
}

#[test]
fn test_create_cow_file() {
    let temp_dir = tempfile::TempDir::new().unwrap();
    let cow_path = temp_dir.path().join("test.cow");

    let mut flow = LoopManager::<()>::create_cow_file(&cow_path.to_string_lossy(), 100);
    let mut file: Option<tempfile::NamedTempFile> = None;
    let mut event = CowEvent::Start;
    loop {
        match flow.step(event) {
            Step::Do(CowAction::CreateDir { path }) => {
                assert_eq!(std::path::Path::new(&path), temp_dir.path());
                event = CowEvent::Done(Ok(()));
            }
            Step::Do(CowAction::CreateFile { path }) => {
                let target = std::path::Path::new(&path);
                let made = tempfile::Builder::new()
                    .prefix(target.file_name().unwrap())
                    .rand_bytes(0)
                    .tempfile_in(target.parent().unwrap())
                    .unwrap();
                file = Some(made);
                event = CowEvent::Done(Ok(()));
            }
            Step::Do(CowAction::SetLength { bytes }) => {
                file.as_ref().unwrap().as_file().set_len(bytes).unwrap();
                event = CowEvent::Done(Ok(()));
            }
            Step::Return(result) => {
                result.unwrap();
                break;
            }
            Step::Unexpected => unreachable!(),
        }
    }

    assert!(cow_path.exists());
    let length = cow_path.metadata().unwrap().len();
    assert!(LoopManager::<()>::get_size(Ok(length)).unwrap() > 0);
    assert_eq!(length, 100 * 1024 * 1024);
}

#[test]
fn errors_end_the_creation_of_a_cow_file() {
    let mut flow = LoopManager::<()>::create_cow_file("/a/b.cow", 1);
    assert!(matches!(flow.step(CowEvent::Start), Step::Do(CowAction::CreateDir { path }) if path == "/a"));
    let step = flow.step(CowEvent::Done(Err(os_error(28))));
    assert!(matches!(step, Step::Return(Err(StorageError::Io(e))) if e.code == Some(28)));
    assert!(matches!(flow.step(CowEvent::Done(Ok(()))), Step::Unexpected));
}

#[test]
fn test_detach_non_existent_path_returns_ok() {
    let manager = manager();
    let device: LoopDevice<()> = LoopDevice::new("/dev/loop99999".to_string(), None);

    let mut flow = manager.detach(&device);
    let path = match flow.step(DetachEvent::Start) {
        Step::Do(DetachAction::Inspect { path }) => path,
        _ => unreachable!(),
    };
    let found = match std::path::Path::new(&path).metadata() {
        Ok(_) => Some(false),
        Err(_) => None,
    };
    assert_eq!(found, None);
    let result = match flow.step(DetachEvent::Inspected(found)) {
        Step::Return(result) => result,
        _ => unreachable!(),
    };
    assert!(result.is_ok());
}

#[test]
fn test_detach_non_block_device_returns_ok() {
    let manager = manager();
    let temp_dir = tempfile::TempDir::new().unwrap();
    let mut regular_file = tempfile::Builder::new()
        .prefix("not_a_device")
        .rand_bytes(0)
        .tempfile_in(temp_dir.path())
        .unwrap();
    regular_file.write_all(b"test").unwrap();

    let device: LoopDevice<()> =
        LoopDevice::new(regular_file.path().to_string_lossy().to_string(), None);
    let mut flow = manager.detach(&device);
    let path = match flow.step(DetachEvent::Start) {
        Step::Do(DetachAction::Inspect { path }) => path,
        _ => unreachable!(),
    };
    let metadata = std::path::Path::new(&path).metadata().unwrap();
    let result = match flow.step(DetachEvent::Inspected(Some(!metadata.is_file()))) {
        Step::Return(result) => result,
        _ => unreachable!(),
    };
    assert!(result.is_ok());
}

#[test]
fn detach_by_path_ignores_errors() {
    let device: LoopDevice<()> = LoopDevice::new("/dev/loop3".to_string(), None);
    let mut flow = manager().detach(&device);
    flow.step(DetachEvent::Start);
    let step = flow.step(DetachEvent::Inspected(Some(true)));
    assert!(matches!(step, Step::Do(DetachAction::Open { path }) if path == "/dev/loop3"));
    assert!(matches!(flow.step(DetachEvent::Opened(true)), Step::Do(DetachAction::DetachOpened)));
    assert!(matches!(flow.step(DetachEvent::Done(Err(os_error(6)))), Step::Return(Ok(()))));
}

#[test]
fn detach_through_a_handle_reports_errors() {
    let device: LoopDevice<u32> = LoopDevice::new("/dev/loop3".to_string(), Some(3));
    let mut flow = manager().detach(&device);
    assert!(matches!(flow.step(DetachEvent::Start), Step::Do(DetachAction::Detach)));
    let step = flow.step(DetachEvent::Done(Err(os_error(6))));
    assert!(matches!(step, Step::Return(Err(StorageError::Io(e))) if e.message == "os error 6"));
}

fn begun(readonly: bool) -> AttachFlow {
    let mut flow = if readonly {
        manager().attach_readonly("/img.ext4")
    } else {
        manager().attach("/img.ext4")
    };
    flow.step::<u32>(AttachEvent::Start);
    flow.step::<u32>(AttachEvent::Probed(true));
    flow.step::<u32>(AttachEvent::Opened(true));
    flow
}

#[test]
fn attach_needs_the_file() {
    let mut flow = manager().attach("/no \"such\" file");
    flow.step::<u32>(AttachEvent::Start);
    let step = flow.step::<u32>(AttachEvent::Probed(false));
    match step {
        Step::Return(Err(StorageError::NotFound(m))) => {
            assert_eq!(m, "File not found: \"/no \\\"such\\\" file\"")
        }
        _ => panic!("not found expected"),
    }
}

#[test]
fn attach_natively() {
    let mut flow = begun(true);
    let step = flow.step::<u32>(AttachEvent::Free(Ok(())));
    assert!(matches!(step, Step::Do(AttachAction::Attach { file, readonly: true }) if file == "/img.ext4"));
    match flow.step(AttachEvent::Attached(Ok(("/dev/loop5".to_string(), 5u32)))) {
        Step::Return(Ok(device)) => {
            assert_eq!(device.path(), "/dev/loop5");
            assert_eq!(device.device, Some(5));
        }
        _ => panic!("device expected"),
    }
}

#[test]
fn refused_permission_leads_to_losetup() {
    let mut flow = begun(true);
    let args = match flow.step::<u32>(AttachEvent::Free(Err(os_error(13)))) {
        Step::Do(AttachAction::Losetup { args }) => args,
        _ => panic!("losetup expected"),
    };
    assert_eq!(args, vec!["-f", "--show", "-r", "/img.ext4"]);
    match flow.step::<u32>(AttachEvent::Losetup(Ok((true, " /dev/loop7\n".to_string())))) {
        Step::Return(Ok(device)) => {
            assert_eq!(device.path(), "/dev/loop7");
            assert_eq!(device.device, None);
        }
        _ => panic!("device expected"),
    }
}

#[test]
fn other_errors_end_the_attachment() {
    let mut flow = begun(false);
    flow.step::<u32>(AttachEvent::Free(Ok(())));
    let step = flow.step::<u32>(AttachEvent::Attached(Err(os_error(16))));
    assert!(matches!(step, Step::Return(Err(StorageError::Io(e))) if e.code == Some(16)));
}

#[test]
fn failing_losetup_is_repeated_a_bounded_number_of_times() {
    let mut flow = begun(false);
    let mut attempts = 1;
    loop {
        let step = flow.step::<u32>(AttachEvent::Free(Err(os_error(13))));
        assert!(matches!(step, Step::Do(AttachAction::Losetup { args }) if args.len() == 3));
        match flow.step::<u32>(AttachEvent::Losetup(Ok((false, String::new())))) {
            Step::Do(AttachAction::Pause { millis }) => {
                assert_eq!(millis, 20);
                let step = flow.step::<u32>(AttachEvent::Paused);
                assert!(matches!(step, Step::Do(AttachAction::NextFree)));
                attempts += 1;
            }
            Step::Return(Err(StorageError::Io(e))) => {
                assert_eq!(e.code, Some(13));
                break;
            }
            _ => panic!("pause or error expected"),
        }
    }
    assert_eq!(attempts, MAX_RETRIES + 1);
}

#[test]
fn losetup_that_cannot_be_run_is_not_repeated() {
    let mut flow = begun(false);
    flow.step::<u32>(AttachEvent::Free(Err(os_error(13))));
    let step = flow.step::<u32>(AttachEvent::Losetup(Err("no such program".to_string())));
    assert!(matches!(step, Step::Return(Err(StorageError::Io(e))) if e.code == Some(13)));
}

#[test]
fn small_questions() {
    let device: LoopDevice<u32> = LoopDevice::new("/dev/loop1".to_string(), None);
    assert!(manager().is_attached(&device, true).unwrap());
    assert!(!manager().is_attached(&device, false).unwrap());
    assert!(manager().list_devices::<u32>().unwrap().is_empty());
    assert_eq!(*LoopManager::new(Ok(9u8)).unwrap().control(), 9);
    assert!(matches!(LoopManager::<u8>::new(Err(os_error(2))), Err(StorageError::Io(e)) if e.code == Some(2)));
    assert!(LoopManager::<u8>::get_size(Err(os_error(2))).is_err());
}
