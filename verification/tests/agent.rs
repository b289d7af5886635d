use vyoma::agent::{
    agent_config, busybox_candidates, cleanup_agent, prepare_agent, AgentError, AgentProbes,
    AgentSites,
};
use vyoma::image::OciImageConfig;

fn sites() -> AgentSites {
    AgentSites {
        exe: Some("/work/target/debug/vyomad".to_string()),
        data_dir: "/data".to_string(),
        search_path: Some(vec!["/opt/bin".to_string(), "/bin/".to_string()]),
    }
}

#[test]
fn candidates_come_in_order_of_preference() {
    assert_eq!(
        sites().standard_candidates(),
        vec![
            "/work/target/x86_64-unknown-linux-musl/release/vyoma-agent-vm",
            "/work/target/debug/vyoma-agent-vm",
            "/usr/bin/vyoma-agent-vm",
            "/usr/lib/vyoma/vyoma-agent-vm",
            "/data/bin/vyoma-agent-vm",
        ]
    );
    assert_eq!(
        sites().search_candidates(),
        vec!["/opt/bin/vyoma-agent-vm", "/bin/vyoma-agent-vm"]
    );
    assert_eq!(busybox_candidates(), vec!["/var/lib/vyoma/bin/busybox", "/usr/bin/busybox"]);
}

#[test]
fn candidates_without_a_program_or_a_search_path() {
    let bare = AgentSites { exe: None, data_dir: "/data".to_string(), search_path: None };
    assert_eq!(bare.standard_candidates().len(), 3);
    assert!(bare.search_candidates().is_empty());
    let root = AgentSites {
        exe: Some("/vyomad".to_string()),
        data_dir: "/data".to_string(),
        search_path: None,
    };
    assert_eq!(root.standard_candidates()[0], "/vyoma-agent-vm");
    assert_eq!(root.standard_candidates().len(), 4);
}

#[test]
fn standard_places_win_over_the_search_path() {
    let probes = AgentProbes {
        busybox: vec![true, true],
        standard: vec![false, false, true, true, false],
        search: vec![true, true],
    };
    let request =
        prepare_agent(&sites(), &probes, "/vms/7", &OciImageConfig::default(), "10.0.0.2", "10.0.0.1");
    assert_eq!(request.agent, Some("/usr/bin/vyoma-agent-vm".to_string()));
    assert_eq!(request.busybox, Some("/var/lib/vyoma/bin/busybox".to_string()));
    assert_eq!(request.path, "/vms/7/initramfs.cpio.gz");
    assert!(request.script.contains("via 10.0.0.1 "));
}

#[test]
fn search_path_is_the_last_resort() {
    let probes = AgentProbes {
        busybox: vec![false, true],
        standard: vec![false; 5],
        search: vec![false, true],
    };
    let request =
        prepare_agent(&sites(), &probes, "/vms/7", &OciImageConfig::default(), "10.0.0.2", "10.0.0.1");
    assert_eq!(request.agent, Some("/bin/vyoma-agent-vm".to_string()));
    assert_eq!(request.busybox, Some("/usr/bin/busybox".to_string()));
}

#[test]
fn test_prepare_agent_without_agent() {
    let temp_dir = tempfile::TempDir::new().unwrap();
    let vm_dir = temp_dir.path().to_string_lossy().to_string();
    let nothing = AgentProbes { busybox: vec![], standard: vec![], search: vec![] };
    let request =
        prepare_agent(&sites(), &nothing, &vm_dir, &OciImageConfig::default(), "10.0.0.2", "10.0.0.1");
    assert_eq!(request.agent, None);
    assert_eq!(request.busybox, None);

    let created = tempfile::Builder::new()
        .prefix("initramfs.cpio.gz")
        .rand_bytes(0)
        .tempfile_in(temp_dir.path());
    let outcome = match &created {
        Ok(_) => Ok(()),
        Err(e) => Err(e.to_string()),
    };
    let result = agent_config(request.path, outcome);

    assert!(result.is_ok());
    let agent_config = result.unwrap();
    assert!(agent_config.initramfs_path.is_some());
    assert!(std::path::Path::new(&agent_config.initramfs_path.unwrap()).exists());
}

#[test]
fn prepared_vm_starts_init() {
    let config = agent_config("/vms/7/initramfs.cpio.gz".to_string(), Ok(())).unwrap();
    assert_eq!(config.initramfs_path, Some("/vms/7/initramfs.cpio.gz".to_string()));
    assert_eq!(config.cmd, vec!["/sbin/init"]);
    assert_eq!(config.workdir, "/");
    assert!(config.envs.is_empty());
    assert!(cleanup_agent(&config).is_ok());
}

#[test]
fn failed_initramfs_is_an_error() {
    let result = agent_config("/x".to_string(), Err("no space".to_string()));
    assert!(matches!(result, Err(AgentError::Initramfs(m)) if m == "no space"));
}
