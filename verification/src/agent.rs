//! Preparation of the initial RAM file system that carries the agent into a VM.
use vstd::prelude::*;
use crate::image::{list_view, text_view, OciImageConfig};
use crate::init_script::{generate_init_script, init_script};
use crate::path::{
    choose_present, first_present, first_present_is_first, join_path, joined_path, parent_of,
    path_parent,
};
use crate::text::{owned, texts};

verus! {

/// File name of the agent.
pub const AGENT_NAME: &'static str = "vyoma-agent-vm";

/// Where the agent is looked for below the build directory of a statically linked build.
pub const AGENT_MUSL: &'static str = "x86_64-unknown-linux-musl/release/vyoma-agent-vm";

/// Where a copy of the last initial RAM file system is left.
pub const INITRAMFS_COPY: &'static str = "/tmp/initramfs.cpio.gz";

/// What is known of the machine before the search for the agent.
pub struct AgentSites {
    /// The running program.
    pub exe: Option<String>,
    /// The data directory of the service.
    pub data_dir: String,
    /// The directories of the search path.
    pub search_path: Option<Vec<String>>,
}

/// Which of the candidates exist, each list in the order of its candidates.
pub struct AgentProbes {
    pub busybox: Vec<bool>,
    pub standard: Vec<bool>,
    pub search: Vec<bool>,
}

/// An initial RAM file system to create.
pub struct InitramfsRequest {
    pub script: String,
    pub agent: Option<String>,
    pub busybox: Option<String>,
    pub path: String,
}

/// How a VM starts with the agent.
pub struct AgentConfig {
    pub initramfs_path: Option<String>,
    pub cmd: Vec<String>,
    pub workdir: String,
    pub envs: Vec<String>,
}

/// Why the agent could not be prepared.
#[derive(Debug)]
pub enum AgentError {
    /// The initial RAM file system could not be created.
    Initramfs(String),
}

/// Where busybox may be.
pub open spec fn busybox_sites() -> Seq<Seq<char>> {
    seq!["/var/lib/vyoma/bin/busybox"@, "/usr/bin/busybox"@]
}

/// The statically linked agent of the build that `exe` comes from.
pub open spec fn musl_site(exe: Option<Seq<char>>) -> Seq<Seq<char>> {
    match exe {
        Some(e) => match path_parent(e) {
            Some(dir) => match path_parent(dir) {
                Some(target) => seq![joined_path(target, AGENT_MUSL@)],
                None => Seq::empty(),
            },
            None => Seq::empty(),
        },
        None => Seq::empty(),
    }
}

/// The agent beside `exe`.
pub open spec fn sibling_site(exe: Option<Seq<char>>) -> Seq<Seq<char>> {
    match exe {
        Some(e) => match path_parent(e) {
            Some(dir) => seq![joined_path(dir, AGENT_NAME@)],
            None => Seq::empty(),
        },
        None => Seq::empty(),
    }
}

/// Where the agent may be, the best place first.
pub open spec fn standard_sites(exe: Option<Seq<char>>, data_dir: Seq<char>) -> Seq<Seq<char>> {
    musl_site(exe) + sibling_site(exe) + seq![
        "/usr/bin/vyoma-agent-vm"@,
        "/usr/lib/vyoma/vyoma-agent-vm"@,
        joined_path(joined_path(data_dir, "bin"@), AGENT_NAME@),
    ]
}

/// Where the agent may be along the search path.
pub open spec fn search_sites(search_path: Option<Seq<Seq<char>>>) -> Seq<Seq<char>> {
    match search_path {
        Some(dirs) => dirs.map_values(|d: Seq<char>| joined_path(d, AGENT_NAME@)),
        None => Seq::empty(),
    }
}

/// The agent that is found: the first of the standard places, or else the first along the search
/// path.
pub open spec fn found_agent(
    standard: Seq<Seq<char>>,
    standard_present: Seq<bool>,
    search: Seq<Seq<char>>,
    search_present: Seq<bool>,
) -> Option<Seq<char>> {
    match first_present(standard, standard_present) {
        Some(path) => Some(path),
        None => first_present(search, search_present),
    }
}

/// The candidates for busybox.
pub fn busybox_candidates() -> (r: Vec<String>)
    ensures
        texts(r) == busybox_sites(),
{
    let mut r: Vec<String> = Vec::new();
    r.push(owned("/var/lib/vyoma/bin/busybox"));
    r.push(owned("/usr/bin/busybox"));
    assert(texts(r) =~= busybox_sites());
    r
}

impl AgentSites {
    /// The candidates for the agent in the standard places.
    pub fn standard_candidates(&self) -> (r: Vec<String>)
        ensures
            texts(r) == standard_sites(text_view(self.exe), self.data_dir@),
    {
        let ghost exe = text_view(self.exe);
        let mut r: Vec<String> = Vec::new();
        if let Some(exe) = &self.exe {
            if let Some(dir) = parent_of(exe.as_str()) {
                if let Some(target) = parent_of(dir.as_str()) {
                    r.push(join_path(target.as_str(), AGENT_MUSL));
                }
            }
        }
        assert(texts(r) =~= musl_site(exe));
        if let Some(exe) = &self.exe {
            if let Some(dir) = parent_of(exe.as_str()) {
                r.push(join_path(dir.as_str(), AGENT_NAME));
            }
        }
        assert(texts(r) =~= musl_site(exe) + sibling_site(exe));
        r.push(owned("/usr/bin/vyoma-agent-vm"));
        r.push(owned("/usr/lib/vyoma/vyoma-agent-vm"));
        r.push(join_path(join_path(self.data_dir.as_str(), "bin").as_str(), AGENT_NAME));
        assert(texts(r) =~= standard_sites(exe, self.data_dir@));
        r
    }

    /// The candidates for the agent along the search path.
    pub fn search_candidates(&self) -> (r: Vec<String>)
        ensures
            texts(r) == search_sites(list_view(self.search_path)),
    {
        let mut r: Vec<String> = Vec::new();
        if let Some(dirs) = &self.search_path {
            let ghost all = texts(*dirs).map_values(|d: Seq<char>| joined_path(d, AGENT_NAME@));
            let mut i: usize = 0;
            while i < dirs.len()
                invariant
                    i <= dirs@.len(),
                    all == texts(*dirs).map_values(|d: Seq<char>| joined_path(d, AGENT_NAME@)),
                    texts(r) == all.take(i as int),
                decreases dirs@.len() - i,
            {
                let ghost before = texts(r);
                let path = join_path(dirs[i].as_str(), AGENT_NAME);
                r.push(path);
                assert(texts(r) =~= before.push(path@));
                i = i + 1;
                assert(texts(r) =~= all.take(i as int));
            }
            assert(texts(r) =~= all);
        }
        assert(texts(r) =~= search_sites(list_view(self.search_path)));
        r
    }
}

/// Decides what goes into the initial RAM file system of a VM.
///
/// The agent is taken from the first standard place that has it, or else from the search path;
/// without an agent the VM boots without agent capabilities. The init script configures the
/// network with `ip_address` and `gateway`.
pub fn prepare_agent(
    sites: &AgentSites,
    probes: &AgentProbes,
    vm_dir: &str,
    config: &OciImageConfig,
    ip_address: &str,
    gateway: &str,
) -> (r: InitramfsRequest)
    ensures
        r.script@ == init_script(config@, ip_address@, gateway@),
        r.path@ == joined_path(vm_dir@, "initramfs.cpio.gz"@),
        text_view(r.busybox) == first_present(busybox_sites(), probes.busybox@),
        text_view(r.agent) == found_agent(
            standard_sites(text_view(sites.exe), sites.data_dir@),
            probes.standard@,
            search_sites(list_view(sites.search_path)),
            probes.search@,
        ),
{
    let agent = match choose_present(&sites.standard_candidates(), &probes.standard) {
        Some(path) => Some(path),
        None => choose_present(&sites.search_candidates(), &probes.search),
    };
    InitramfsRequest {
        script: generate_init_script(config, ip_address, gateway),
        agent,
        busybox: choose_present(&busybox_candidates(), &probes.busybox),
        path: join_path(vm_dir, "initramfs.cpio.gz"),
    }
}

/// The configuration of a VM whose initial RAM file system has been `created` at `path`.
pub fn agent_config(path: String, created: Result<(), String>) -> (r: Result<
    AgentConfig,
    AgentError,
>)
    ensures
        match created {
            Ok(_) => {
                &&& r matches Ok(config)
                &&& config.initramfs_path == Some(path)
                &&& texts(config.cmd) == seq!["/sbin/init"@]
                &&& config.workdir@ == "/"@
                &&& config.envs@.len() == 0
            },
            Err(e) => r == Err::<AgentConfig, AgentError>(AgentError::Initramfs(e)),
        },
{
    match created {
        Ok(_) => {
            let mut cmd: Vec<String> = Vec::new();
            cmd.push(owned("/sbin/init"));
            assert(texts(cmd) =~= seq!["/sbin/init"@]);
            Ok(
                AgentConfig {
                    initramfs_path: Some(path),
                    cmd,
                    workdir: owned("/"),
                    envs: Vec::new(),
                },
            )
        },
        Err(e) => Err(AgentError::Initramfs(e)),
    }
}

/// Releases what belongs to an agent: nothing has to be done.
pub fn cleanup_agent(_agent_config: &AgentConfig) -> (r: Result<(), AgentError>)
    ensures
        r == Ok::<(), AgentError>(()),
{
    Ok(())
}

/// The search path matters only where no standard place has the agent.
pub proof fn standard_places_come_first(
    standard: Seq<Seq<char>>,
    standard_present: Seq<bool>,
    search: Seq<Seq<char>>,
    search_present: Seq<bool>,
    i: int,
)
    requires
        standard.len() == standard_present.len(),
        0 <= i < standard.len(),
        standard_present[i],
    ensures
        found_agent(standard, standard_present, search, search_present) == first_present(
            standard,
            standard_present,
        ),
        first_present(standard, standard_present) is Some,
{
    first_present_is_first(standard, standard_present);
}

} // verus!
