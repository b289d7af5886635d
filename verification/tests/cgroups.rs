use vyoma::cgroups::{
    controllers_to_enable, CgroupError, CgroupInit, CgroupManager, InitAction, InitEvent,
};
use vyoma::flow::Step;
use vyoma::number::NumberError;

fn manager() -> CgroupManager {
    CgroupManager::new()
}

#[test]
fn limits_are_written_below_the_group_of_the_vm() {
    let cpu = manager().set_cpu_limit("vm1", 50);
    assert_eq!(cpu.path, "/sys/fs/cgroup/vyoma.slice/vyoma-vm1/cpu.max");
    assert_eq!(cpu.content, "50000 100000");
    let memory = manager().set_memory_limit("vm1", 536870912);
    assert_eq!(memory.path, "/sys/fs/cgroup/vyoma.slice/vyoma-vm1/memory.max");
    assert_eq!(memory.content, "536870912");
    let process = manager().add_process("vm1", 4242);
    assert_eq!(process.path, "/sys/fs/cgroup/vyoma.slice/vyoma-vm1/cgroup.procs");
    assert_eq!(process.content, "4242");
    assert_eq!(manager().set_cpu_limit("vm1", 0).content, "0 100000");
}

#[test]
fn groups_are_created_and_removed_by_need() {
    let fresh = manager().create_vm_cgroup("vm1", false);
    assert_eq!(fresh.path, "/sys/fs/cgroup/vyoma.slice/vyoma-vm1");
    assert!(fresh.create);
    assert!(!manager().create_vm_cgroup("vm1", true).create);
    assert_eq!(manager().remove_vm_cgroup("vm1", false), None);
    assert_eq!(
        manager().remove_vm_cgroup("vm1", true),
        Some("/sys/fs/cgroup/vyoma.slice/vyoma-vm1".to_string())
    );
}

#[test]
fn statistics_have_their_files() {
    let m = manager();
    assert_eq!(m.memory_events_path("a"), "/sys/fs/cgroup/vyoma.slice/vyoma-a/memory.events");
    assert_eq!(m.cpu_stat_path("a"), "/sys/fs/cgroup/vyoma.slice/vyoma-a/cpu.stat");
    assert_eq!(m.memory_current_path("a"), "/sys/fs/cgroup/vyoma.slice/vyoma-a/memory.current");
    assert_eq!(m.memory_max_path("a"), m.set_memory_limit("a", 1).path);
    assert_ne!(m.memory_max_path("a"), m.memory_max_path("b"));
}

#[test]
fn oom_kills_are_counted() {
    let m = manager();
    assert_eq!(m.get_oom_kill_count(None), 0);
    assert_eq!(m.get_oom_kill_count(Some("low 0\nhigh 2\noom 3\noom_kill 7\noom_group_kill 1\n")), 7);
    assert_eq!(m.get_oom_kill_count(Some("low 0\r\noom_kill 5\r\n")), 5);
    assert_eq!(m.get_oom_kill_count(Some("oom_kill many\noom_kill 2\n")), 0);
    assert_eq!(m.get_oom_kill_count(Some("oom_kill \noom_kill 2\n")), 2);
    assert_eq!(m.get_oom_kill_count(Some("oom_killed 4\n")), 0);
}

#[test]
fn cpu_usage_is_read() {
    let m = manager();
    assert_eq!(m.get_cpu_usage_usec("usage_usec 123456\nuser_usec 1\n"), Ok(123456));
    assert_eq!(m.get_cpu_usage_usec("user_usec 1\nusage_usec  9 \n"), Ok(9));
    assert_eq!(m.get_cpu_usage_usec("user_usec 1\n"), Err(CgroupError::UsageMissing));
    assert_eq!(
        m.get_cpu_usage_usec("usage_usec x\nusage_usec 1\n"),
        Err(CgroupError::Number(NumberError::InvalidDigit))
    );
}

#[test]
fn memory_is_read() {
    let m = manager();
    assert_eq!(m.get_memory_current("4096\n"), Ok(4096));
    assert_eq!(m.get_memory_current("\n"), Err(CgroupError::Number(NumberError::Empty)));
    assert_eq!(
        m.get_memory_current("18446744073709551616"),
        Err(CgroupError::Number(NumberError::PosOverflow))
    );
    assert_eq!(m.get_memory_max("max\n"), Ok(0));
    assert_eq!(m.get_memory_max(" 18446744073709551615\n"), Ok(u64::MAX));
    assert_eq!(m.get_memory_max("+12"), Ok(12));
    assert_eq!(m.get_memory_max("-1"), Err(CgroupError::Number(NumberError::InvalidDigit)));
}

#[test]
fn limit_reads_back() {
    for bytes in vec![0, 1, 4096, u64::MAX] {
        let written = manager().set_memory_limit("vm", bytes).content;
        assert_eq!(manager().get_memory_max(&written), Ok(bytes));
        assert_eq!(manager().get_memory_max(&format!("{}\n", written)), Ok(bytes));
    }
}

#[test]
fn errors_read_as_sentences() {
    assert_eq!(CgroupError::UsageMissing.message(), "usage_usec not found in cpu.stat");
    for text in vec!["", "x", "99999999999999999999"] {
        let ours = manager().get_memory_current(text).unwrap_err().message();
        assert_eq!(ours, text.parse::<u64>().unwrap_err().to_string());
    }
}

#[test]
fn controllers_are_matched_as_whole_words() {
    assert_eq!(controllers_to_enable("cpuset cpu io memory pids\n"), "+cpu +memory +io");
    assert_eq!(controllers_to_enable("cpuset hugetlb"), "");
    assert_eq!(controllers_to_enable("io"), "+io");
    assert_eq!(controllers_to_enable(""), "");
}

fn read_controllers(present: bool) -> CgroupInit {
    let mut flow = manager().init();
    let step = flow.step(InitEvent::Start);
    assert!(matches!(step, Step::Do(InitAction::Probe { path }) if path == "/sys/fs/cgroup/vyoma.slice"));
    let mut step = flow.step(InitEvent::Probed(present));
    if !present {
        assert!(matches!(step, Step::Do(InitAction::CreateDir { path }) if path == "/sys/fs/cgroup/vyoma.slice"));
        step = flow.step(InitEvent::Done(Ok(())));
    }
    assert!(matches!(step, Step::Do(InitAction::Read { path }) if path == "/sys/fs/cgroup/cgroup.controllers"));
    flow
}

#[test]
fn slice_is_created_and_controllers_enabled() {
    let mut flow = read_controllers(false);
    let step = flow.step(InitEvent::Text(Ok("cpu memory\n".to_string())));
    let control = "/sys/fs/cgroup/vyoma.slice/cgroup.subtree_control";
    assert!(matches!(step, Step::Do(InitAction::Probe { path }) if path == control));
    match flow.step(InitEvent::Probed(true)) {
        Step::Do(InitAction::Write(write)) => {
            assert_eq!(write.path, control);
            assert_eq!(write.content, "+cpu +memory");
        }
        _ => panic!("write expected"),
    }
    let step = flow.step(InitEvent::Done(Err("busy".to_string())));
    assert!(matches!(step, Step::Return(Ok(()))));
}

#[test]
fn nothing_to_enable_is_no_error() {
    let mut flow = read_controllers(true);
    let step = flow.step(InitEvent::Text(Err("gone".to_string())));
    assert!(matches!(step, Step::Return(Ok(()))));
    let mut flow = read_controllers(true);
    flow.step(InitEvent::Text(Ok("io".to_string())));
    assert!(matches!(flow.step(InitEvent::Probed(false)), Step::Return(Ok(()))));
}

#[test]
fn slice_that_cannot_be_created_is_an_error() {
    let mut flow = manager().init();
    flow.step(InitEvent::Start);
    flow.step(InitEvent::Probed(false));
    let step = flow.step(InitEvent::Done(Err("read-only".to_string())));
    assert!(matches!(step, Step::Return(Err(e)) if e == "read-only"));
}
