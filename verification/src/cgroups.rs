//! Resource limits of VMs through control groups (version 2).
use vstd::prelude::*;
use vstd::string::*;
use crate::flow::Step;
use crate::number::{
    decimal, decimal_round_trip, format_u64, is_digit, lemma_decimal_digits, parse_u64, read_u64,
    NumberError,
};
use crate::path::{join_path, joined_path};
use crate::text::{
    concat2, contains_word, join, joined, lemma_span_unique, lines, owned, same_text, split_lines,
    split_whitespace, starts_with, strip_prefix, texts, trim, trimmed, trimmed_end, trimmed_start,
    white_space, words,
};

verus! {

/// The file that lists the controllers of the machine.
pub const CONTROLLERS_FILE: &'static str = "/sys/fs/cgroup/cgroup.controllers";

/// Length of a CPU accounting period in microseconds.
pub const CPU_PERIOD: u32 = 100000;

/// Quota in microseconds for each percent of a CPU.
pub const QUOTA_PER_PERCENT: u32 = 1000;

/// Manages the control groups of VMs below one slice.
pub struct CgroupManager {
    root_path: String,
}

impl View for CgroupManager {
    type V = Seq<char>;

    /// The directory of the slice.
    closed spec fn view(&self) -> Seq<char> {
        self.root_path@
    }
}

/// A text to write to a file.
pub struct FileWrite {
    pub path: String,
    pub content: String,
}

/// The directory that a VM gets, and whether it has to be created.
pub struct VmCgroup {
    pub path: String,
    pub create: bool,
}

/// Why a statistic of a control group is not known.
#[derive(Debug, Clone, Copy, PartialEq, Eq, Structural)]
pub enum CgroupError {
    /// The file does not hold a number where one is expected.
    Number(NumberError),
    /// `cpu.stat` has no line for the CPU usage.
    UsageMissing,
}

/// The directory of the control group of a VM.
pub open spec fn vm_dir(root: Seq<char>, vm_id: Seq<char>) -> Seq<char> {
    joined_path(root, "vyoma-"@ + vm_id)
}

/// The file `name` in the control group of a VM.
pub open spec fn vm_file(root: Seq<char>, vm_id: Seq<char>, name: Seq<char>) -> Seq<char> {
    joined_path(vm_dir(root, vm_id), name)
}

/// `word`, if it is among `list`, as the request to enable it.
pub open spec fn request_for(list: Seq<Seq<char>>, word: Seq<char>) -> Seq<Seq<char>> {
    if list.contains(word) {
        seq!["+"@ + word]
    } else {
        Seq::empty()
    }
}

/// The requests to enable those of `cpu`, `memory` and `io` that are available.
pub open spec fn subtree_requests(available: Seq<char>) -> Seq<Seq<char>> {
    let list = words(available);
    request_for(list, "cpu"@) + request_for(list, "memory"@) + request_for(list, "io"@)
}

/// The text that enables those of `cpu`, `memory` and `io` that are available.
pub open spec fn subtree_control(available: Seq<char>) -> Seq<char> {
    joined(subtree_requests(available), " "@)
}

/// The number behind the first `oom_kill` line that has a second word; 0 where there is none or it
/// is not a number.
pub open spec fn oom_kills(list: Seq<Seq<char>>) -> u64
    decreases list.len(),
{
    if list.len() == 0 {
        0
    } else if "oom_kill "@.is_prefix_of(list[0]) && words(list[0]).len() > 1 {
        match read_u64(words(list[0])[1]) {
            Ok(n) => n,
            Err(_) => 0,
        }
    } else {
        oom_kills(list.skip(1))
    }
}

/// The number on the first `usage_usec` line.
pub open spec fn cpu_usage(list: Seq<Seq<char>>) -> Result<u64, CgroupError>
    decreases list.len(),
{
    if list.len() == 0 {
        Err(CgroupError::UsageMissing)
    } else if "usage_usec "@.is_prefix_of(list[0]) {
        number_in(list[0].skip("usage_usec "@.len() as int))
    } else {
        cpu_usage(list.skip(1))
    }
}

/// The number that a text holds between white space.
pub open spec fn number_in(content: Seq<char>) -> Result<u64, CgroupError> {
    match read_u64(trimmed(content)) {
        Ok(n) => Ok(n),
        Err(e) => Err(CgroupError::Number(e)),
    }
}

/// The memory limit that `memory.max` shows; 0 stands for no limit.
pub open spec fn memory_limit(content: Seq<char>) -> Result<u64, CgroupError> {
    if trimmed(content) == "max"@ {
        Ok(0)
    } else {
        number_in(content)
    }
}

/// Reads the number that a text holds between white space.
fn parse_number(content: &str) -> (r: Result<u64, CgroupError>)
    ensures
        r == number_in(content@),
{
    match parse_u64(trim(content).as_str()) {
        Ok(n) => Ok(n),
        Err(e) => Err(CgroupError::Number(e)),
    }
}

/// Appends the request for `word` if it is among `list`.
fn push_request(requests: &mut Vec<String>, list: &Vec<String>, word: &str)
    ensures
        texts(*final(requests)) == texts(*old(requests)) + request_for(texts(*list), word@),
{
    let ghost before = texts(*requests);
    if contains_word(list, word) {
        let request = concat2("+", word);
        requests.push(request);
        assert(texts(*requests) =~= before.push(request@));
    }
    assert(texts(*requests) =~= before + request_for(texts(*list), word@));
}

/// The text that enables those of `cpu`, `memory` and `io` that are among the words of
/// `available`.
pub fn controllers_to_enable(available: &str) -> (r: String)
    ensures
        r@ == subtree_control(available@),
{
    let list = split_whitespace(available);
    let mut requests: Vec<String> = Vec::new();
    assert(texts(requests) =~= Seq::<Seq<char>>::empty());
    push_request(&mut requests, &list, "cpu");
    push_request(&mut requests, &list, "memory");
    push_request(&mut requests, &list, "io");
    assert(texts(requests) =~= subtree_requests(available@));
    join(&requests, " ")
}

/// How far the set-up of the slice has come.
#[derive(Clone, Copy, PartialEq, Eq, Structural)]
pub enum InitPhase {
    Begin,
    ProbeRoot,
    CreateRoot,
    ReadControllers,
    ProbeControl,
    Enable,
    Finished,
}

/// What the set-up of the slice asks for.
pub enum InitAction {
    /// Find out whether the path exists.
    Probe { path: String },
    /// Create the directory and its parents.
    CreateDir { path: String },
    /// Read the text of the file.
    Read { path: String },
    /// Write a text to a file.
    Write(FileWrite),
}

/// What happened to the last action of the set-up.
pub enum InitEvent {
    Start,
    Probed(bool),
    Done(Result<(), String>),
    Text(Result<String, String>),
}

/// Workflow that creates the slice and enables its controllers.
pub struct CgroupInit {
    pub root: String,
    pub control: String,
    pub phase: InitPhase,
}

impl CgroupInit {
    /// The file that takes the requests for controllers.
    pub open spec fn control_file(self) -> Seq<char> {
        joined_path(self.root@, "cgroup.subtree_control"@)
    }

    /// The workflow asks for the controllers of the machine.
    pub open spec fn reads_controllers(
        pre: CgroupInit,
        post: CgroupInit,
        step: Step<InitAction, (), String>,
    ) -> bool {
        &&& post == CgroupInit { phase: InitPhase::ReadControllers, ..pre }
        &&& step matches Step::Do(InitAction::Read { path }) && path@ == CONTROLLERS_FILE@
    }

    /// The workflow ends without an error.
    pub open spec fn succeeds(
        pre: CgroupInit,
        post: CgroupInit,
        step: Step<InitAction, (), String>,
    ) -> bool {
        &&& post == CgroupInit { phase: InitPhase::Finished, ..pre }
        &&& step == Step::<InitAction, (), String>::Return(Ok(()))
    }

    /// How the workflow answers an event.
    pub open spec fn transition(
        pre: CgroupInit,
        event: InitEvent,
        post: CgroupInit,
        step: Step<InitAction, (), String>,
    ) -> bool {
        match (pre.phase, event) {
            (InitPhase::Begin, InitEvent::Start) => {
                &&& post == CgroupInit { phase: InitPhase::ProbeRoot, ..pre }
                &&& step matches Step::Do(InitAction::Probe { path }) && path@ == pre.root@
            },
            (InitPhase::ProbeRoot, InitEvent::Probed(present)) => {
                if present {
                    Self::reads_controllers(pre, post, step)
                } else {
                    &&& post == CgroupInit { phase: InitPhase::CreateRoot, ..pre }
                    &&& step matches Step::Do(InitAction::CreateDir { path }) && path@ == pre.root@
                }
            },
            (InitPhase::CreateRoot, InitEvent::Done(result)) => match result {
                Ok(_) => Self::reads_controllers(pre, post, step),
                Err(e) => {
                    &&& post == CgroupInit { phase: InitPhase::Finished, ..pre }
                    &&& step == Step::<InitAction, (), String>::Return(Err(e))
                },
            },
            (InitPhase::ReadControllers, InitEvent::Text(result)) => {
                let available = match result {
                    Ok(text) => text@,
                    Err(_) => Seq::empty(),
                };
                if subtree_control(available).len() == 0 {
                    Self::succeeds(pre, post, step)
                } else {
                    &&& post.phase == InitPhase::ProbeControl
                    &&& post.root == pre.root
                    &&& post.control@ == subtree_control(available)
                    &&& step matches Step::Do(InitAction::Probe { path }) && path@
                        == pre.control_file()
                }
            },
            (InitPhase::ProbeControl, InitEvent::Probed(present)) => {
                if present {
                    &&& post == CgroupInit { phase: InitPhase::Enable, ..pre }
                    &&& step matches Step::Do(InitAction::Write(write)) && write.path@
                        == pre.control_file() && write.content@ == pre.control@
                } else {
                    Self::succeeds(pre, post, step)
                }
            },
            (InitPhase::Enable, InitEvent::Done(_)) => Self::succeeds(pre, post, step),
            _ => post == pre && step is Unexpected,
        }
    }

    /// Takes the outcome of the last action and says what to do next. A slice that cannot be
    /// created is an error; controllers that cannot be read or enabled are not.
    pub fn step(&mut self, event: InitEvent) -> (r: Step<InitAction, (), String>)
        ensures
            Self::transition(*old(self), event, *final(self), r),
    {
        match (self.phase, event) {
            (InitPhase::Begin, InitEvent::Start) => {
                self.phase = InitPhase::ProbeRoot;
                Step::Do(InitAction::Probe { path: self.root.clone() })
            },
            (InitPhase::ProbeRoot, InitEvent::Probed(present)) => {
                if present {
                    self.phase = InitPhase::ReadControllers;
                    Step::Do(InitAction::Read { path: owned(CONTROLLERS_FILE) })
                } else {
                    self.phase = InitPhase::CreateRoot;
                    Step::Do(InitAction::CreateDir { path: self.root.clone() })
                }
            },
            (InitPhase::CreateRoot, InitEvent::Done(result)) => match result {
                Ok(_) => {
                    self.phase = InitPhase::ReadControllers;
                    Step::Do(InitAction::Read { path: owned(CONTROLLERS_FILE) })
                },
                Err(e) => {
                    self.phase = InitPhase::Finished;
                    Step::Return(Err(e))
                },
            },
            (InitPhase::ReadControllers, InitEvent::Text(result)) => {
                let available = match result {
                    Ok(text) => text,
                    Err(_) => String::new(),
                };
                let control = controllers_to_enable(available.as_str());
                if control.as_str().is_empty() {
                    self.phase = InitPhase::Finished;
                    Step::Return(Ok(()))
                } else {
                    self.phase = InitPhase::ProbeControl;
                    self.control = control;
                    let path = join_path(self.root.as_str(), "cgroup.subtree_control");
                    Step::Do(InitAction::Probe { path })
                }
            },
            (InitPhase::ProbeControl, InitEvent::Probed(present)) => {
                if present {
                    self.phase = InitPhase::Enable;
                    let path = join_path(self.root.as_str(), "cgroup.subtree_control");
                    Step::Do(InitAction::Write(FileWrite { path, content: self.control.clone() }))
                } else {
                    self.phase = InitPhase::Finished;
                    Step::Return(Ok(()))
                }
            },
            (InitPhase::Enable, InitEvent::Done(_)) => {
                self.phase = InitPhase::Finished;
                Step::Return(Ok(()))
            },
            _ => Step::Unexpected,
        }
    }
}

impl CgroupManager {
    /// A manager for the slice of this toolchain.
    pub fn new() -> (r: CgroupManager)
        ensures
            r@ == "/sys/fs/cgroup/vyoma.slice"@,
    {
        CgroupManager { root_path: owned("/sys/fs/cgroup/vyoma.slice") }
    }

    /// Begins the set-up of the slice.
    pub fn init(&self) -> (r: CgroupInit)
        ensures
            r.root@ == self@,
            r.control@.len() == 0,
            r.phase == InitPhase::Begin,
    {
        CgroupInit {
            root: self.root_path.clone(),
            control: String::new(),
            phase: InitPhase::Begin,
        }
    }

    /// The directory of the control group of a VM.
    pub fn vm_cgroup_path(&self, vm_id: &str) -> (r: String)
        ensures
            r@ == vm_dir(self@, vm_id@),
    {
        join_path(self.root_path.as_str(), concat2("vyoma-", vm_id).as_str())
    }

    /// The file `name` in the control group of a VM.
    pub fn vm_cgroup_file(&self, vm_id: &str, name: &str) -> (r: String)
        ensures
            r@ == vm_file(self@, vm_id@, name@),
    {
        join_path(self.vm_cgroup_path(vm_id).as_str(), name)
    }

    /// The control group of a VM, to be created unless its directory is `present`.
    pub fn create_vm_cgroup(&self, vm_id: &str, present: bool) -> (r: VmCgroup)
        ensures
            r.path@ == vm_dir(self@, vm_id@),
            r.create == !present,
    {
        VmCgroup { path: self.vm_cgroup_path(vm_id), create: !present }
    }

    /// Sets the CPU limit of a VM: 100 percent is one core.
    pub fn set_cpu_limit(&self, vm_id: &str, vcpu_percentage: u32) -> (r: FileWrite)
        requires
            vcpu_percentage * QUOTA_PER_PERCENT <= u32::MAX,
        ensures
            r.path@ == vm_file(self@, vm_id@, "cpu.max"@),
            r.content@ == decimal((vcpu_percentage * QUOTA_PER_PERCENT) as nat) + " "@ + decimal(
                CPU_PERIOD as nat,
            ),
    {
        let quota: u32 = vcpu_percentage * QUOTA_PER_PERCENT;
        let mut content = format_u64(quota as u64);
        content.append(" ");
        content.append(format_u64(CPU_PERIOD as u64).as_str());
        FileWrite { path: self.vm_cgroup_file(vm_id, "cpu.max"), content }
    }

    /// Sets the memory limit of a VM in bytes.
    pub fn set_memory_limit(&self, vm_id: &str, bytes: u64) -> (r: FileWrite)
        ensures
            r.path@ == vm_file(self@, vm_id@, "memory.max"@),
            r.content@ == decimal(bytes as nat),
    {
        FileWrite { path: self.vm_cgroup_file(vm_id, "memory.max"), content: format_u64(bytes) }
    }

    /// Adds a process to the control group of a VM.
    pub fn add_process(&self, vm_id: &str, pid: u32) -> (r: FileWrite)
        ensures
            r.path@ == vm_file(self@, vm_id@, "cgroup.procs"@),
            r.content@ == decimal(pid as nat),
    {
        FileWrite {
            path: self.vm_cgroup_file(vm_id, "cgroup.procs"),
            content: format_u64(pid as u64),
        }
    }

    /// The directory to remove for a VM, if it is `present`.
    pub fn remove_vm_cgroup(&self, vm_id: &str, present: bool) -> (r: Option<String>)
        ensures
            r is Some <==> present,
            r matches Some(path) ==> path@ == vm_dir(self@, vm_id@),
    {
        if present {
            Some(self.vm_cgroup_path(vm_id))
        } else {
            None
        }
    }

    /// The file that `get_oom_kill_count` takes the text of.
    pub fn memory_events_path(&self, vm_id: &str) -> (r: String)
        ensures
            r@ == vm_file(self@, vm_id@, "memory.events"@),
    {
        self.vm_cgroup_file(vm_id, "memory.events")
    }

    /// The file that `get_cpu_usage_usec` takes the text of.
    pub fn cpu_stat_path(&self, vm_id: &str) -> (r: String)
        ensures
            r@ == vm_file(self@, vm_id@, "cpu.stat"@),
    {
        self.vm_cgroup_file(vm_id, "cpu.stat")
    }

    /// The file that `get_memory_current` takes the text of.
    pub fn memory_current_path(&self, vm_id: &str) -> (r: String)
        ensures
            r@ == vm_file(self@, vm_id@, "memory.current"@),
    {
        self.vm_cgroup_file(vm_id, "memory.current")
    }

    /// The file that `get_memory_max` takes the text of.
    pub fn memory_max_path(&self, vm_id: &str) -> (r: String)
        ensures
            r@ == vm_file(self@, vm_id@, "memory.max"@),
    {
        self.vm_cgroup_file(vm_id, "memory.max")
    }

    /// How often the kernel has killed a process of the VM for want of memory, from the text of
    /// `memory.events`; `None` if there is no such file.
    pub fn get_oom_kill_count(&self, events: Option<&str>) -> (r: u64)
        ensures
            r == (match events {
                Some(content) => oom_kills(lines(content@)),
                None => 0,
            }),
    {
        let content = match events {
            Some(content) => content,
            None => {
                return 0;
            },
        };
        let list = split_lines(content);
        let mut i: usize = 0;
        let ghost all = lines(content@);
        assert(all.skip(0) =~= all);
        while i < list.len()
            invariant
                i <= list@.len(),
                all == texts(list),
                all == lines(content@),
                events == Some(content),
                oom_kills(all) == oom_kills(all.skip(i as int)),
            decreases list@.len() - i,
        {
            let line = list[i].as_str();
            assert(all.skip(i as int)[0] == line@);
            assert(all.skip(i as int).skip(1) =~= all.skip(i + 1));
            if starts_with(line, "oom_kill ") {
                let parts = split_whitespace(line);
                if parts.len() > 1 {
                    assert(texts(parts)[1] == parts@[1]@);
                    return match parse_u64(parts[1].as_str()) {
                        Ok(n) => n,
                        Err(_) => 0,
                    };
                }
            }
            i = i + 1;
        }
        0
    }

    /// The CPU time of the VM in microseconds, from the text of `cpu.stat`.
    pub fn get_cpu_usage_usec(&self, content: &str) -> (r: Result<u64, CgroupError>)
        ensures
            r == cpu_usage(lines(content@)),
    {
        let list = split_lines(content);
        let mut i: usize = 0;
        let ghost all = lines(content@);
        assert(all.skip(0) =~= all);
        while i < list.len()
            invariant
                i <= list@.len(),
                all == texts(list),
                all == lines(content@),
                cpu_usage(all) == cpu_usage(all.skip(i as int)),
            decreases list@.len() - i,
        {
            let line = list[i].as_str();
            assert(all.skip(i as int)[0] == line@);
            assert(all.skip(i as int).skip(1) =~= all.skip(i + 1));
            if let Some(value) = strip_prefix(line, "usage_usec ") {
                return parse_number(value.as_str());
            }
            i = i + 1;
        }
        Err(CgroupError::UsageMissing)
    }

    /// The memory that the VM uses in bytes, from the text of `memory.current`.
    pub fn get_memory_current(&self, content: &str) -> (r: Result<u64, CgroupError>)
        ensures
            r == number_in(content@),
    {
        parse_number(content)
    }

    /// The memory limit of the VM in bytes, from the text of `memory.max`; 0 if it has none.
    pub fn get_memory_max(&self, content: &str) -> (r: Result<u64, CgroupError>)
        ensures
            r == memory_limit(content@),
    {
        if same_text(trim(content).as_str(), "max") {
            Ok(0)
        } else {
            parse_number(content)
        }
    }
}

impl CgroupError {
    /// The error as a sentence.
    pub fn message(&self) -> (r: String)
        ensures
            r@ == (match *self {
                CgroupError::UsageMissing => "usage_usec not found in cpu.stat"@,
                CgroupError::Number(NumberError::Empty) =>
                    "cannot parse integer from empty string"@,
                CgroupError::Number(NumberError::InvalidDigit) => "invalid digit found in string"@,
                CgroupError::Number(NumberError::PosOverflow) =>
                    "number too large to fit in target type"@,
            }),
    {
        match self {
            CgroupError::UsageMissing => owned("usage_usec not found in cpu.stat"),
            CgroupError::Number(NumberError::Empty) => owned(
                "cannot parse integer from empty string",
            ),
            CgroupError::Number(NumberError::InvalidDigit) => owned(
                "invalid digit found in string",
            ),
            CgroupError::Number(NumberError::PosOverflow) => owned(
                "number too large to fit in target type",
            ),
        }
    }
}

proof fn lemma_trim_between(s: Seq<char>)
    requires
        s.len() > 0,
        !white_space(s[0]),
        !white_space(s.last()),
    ensures
        trimmed(s) == s,
        trimmed(s.push('\n')) == s,
{
    let stop = |c: char| !white_space(c);
    lemma_span_unique(s, stop, 0);
    assert(trimmed_start(s) =~= s);
    let t = s.push('\n');
    lemma_span_unique(t, stop, 0);
    assert(trimmed_start(t) =~= t);
    assert(t.drop_last() =~= s);
    assert(trimmed_end(t) == trimmed_end(s));
}

/// The memory limit that was written to `memory.max` is the one that is read from it, with or
/// without the line ending that the kernel adds.
pub proof fn memory_limit_reads_back(bytes: u64)
    ensures
        memory_limit(decimal(bytes as nat)) == Ok::<u64, CgroupError>(bytes),
        memory_limit(decimal(bytes as nat).push('\n')) == Ok::<u64, CgroupError>(bytes),
{
    let d = decimal(bytes as nat);
    lemma_decimal_digits(bytes as nat);
    assert(is_digit(d[0]));
    assert(is_digit(d[d.len() - 1]));
    lemma_trim_between(d);
    decimal_round_trip(bytes);
    reveal_strlit("max");
    assert("max"@[0] == 'm');
    assert(d != "max"@);
}

/// The word `max` means that there is no limit.
pub proof fn unlimited_memory_reads_as_zero()
    ensures
        memory_limit("max"@) == Ok::<u64, CgroupError>(0),
        memory_limit("max"@.push('\n')) == Ok::<u64, CgroupError>(0),
{
    reveal_strlit("max");
    lemma_trim_between("max"@);
}

/// What is written for one VM is not read for another: the files of different VMs are different,
/// unless one id is the other with a separator at its end.
pub proof fn vm_files_are_distinct(root: Seq<char>, a: Seq<char>, b: Seq<char>, name: Seq<char>)
    requires
        name.len() > 0,
        name[0] != '/',
        a != b.push('/'),
        b != a.push('/'),
        vm_file(root, a, name) == vm_file(root, b, name),
    ensures
        a == b,
{
    let x = vm_dir(root, a);
    let y = vm_dir(root, b);
    lemma_stem(root, a, name);
    lemma_stem(root, b, name);
    let p = if x.last() == '/' { x } else { x.push('/') };
    let q = if y.last() == '/' { y } else { y.push('/') };
    assert(p == q);
    if x.last() == '/' && y.last() != '/' {
        vm_cgroups_are_distinct(root, a, b.push('/'));
    } else if x.last() != '/' && y.last() == '/' {
        vm_cgroups_are_distinct(root, b, a.push('/'));
    } else {
        assert(x.push('/').drop_last() =~= x);
        assert(y.push('/').drop_last() =~= y);
        vm_cgroups_are_distinct(root, a, b);
    }
}

proof fn lemma_stem(root: Seq<char>, id: Seq<char>, name: Seq<char>)
    requires
        name.len() > 0,
        name[0] != '/',
    ensures
        ({
            let dir = vm_dir(root, id);
            let stem = if dir.last() == '/' { dir } else { dir.push('/') };
            let file = vm_file(root, id, name);
            &&& dir.len() > 0
            &&& stem == file.take(file.len() - name.len())
            &&& dir.push('/') == vm_dir(root, id.push('/'))
        }),
{
    reveal_strlit("vyoma-");
    let dir = vm_dir(root, id);
    let stem = if dir.last() == '/' { dir } else { dir.push('/') };
    let file = vm_file(root, id, name);
    assert(file =~= stem + name);
    assert(file.take(file.len() - name.len()) =~= stem);
    assert(dir.push('/') =~= vm_dir(root, id.push('/')));
}

/// The slice being there, its set-up never fails: only its creation can.
pub proof fn only_creation_stops_init(
    pre: CgroupInit,
    event: InitEvent,
    post: CgroupInit,
    step: Step<InitAction, (), String>,
)
    requires
        CgroupInit::transition(pre, event, post, step),
        step matches Step::Return(Err(_)),
    ensures
        pre.phase == InitPhase::CreateRoot,
{
}

/// Different VMs have different control groups.
pub proof fn vm_cgroups_are_distinct(root: Seq<char>, a: Seq<char>, b: Seq<char>)
    requires
        vm_dir(root, a) == vm_dir(root, b),
    ensures
        a == b,
{
    reveal_strlit("vyoma-");
    let x = vm_dir(root, a);
    let y = vm_dir(root, b);
    assert(x.len() == y.len());
    let n = x.len() - a.len();
    assert(x.skip(n) =~= a);
    assert(y.skip(n) =~= b);
}

/// A controller is enabled exactly if its whole name is among the available ones: `cpuset` does
/// not enable `cpu`.
pub proof fn controllers_are_enabled_by_whole_name(available: Seq<char>, name: Seq<char>)
    requires
        name == "cpu"@ || name == "memory"@ || name == "io"@,
    ensures
        subtree_requests(available).contains("+"@ + name) <==> words(available).contains(name),
{
    reveal_strlit("cpu");
    reveal_strlit("memory");
    reveal_strlit("io");
    reveal_strlit("+");
    let list = words(available);
    let c = request_for(list, "cpu"@);
    let m = request_for(list, "memory"@);
    let i = request_for(list, "io"@);
    let all = subtree_requests(available);
    assert(all =~= c + m + i);
    assert(("+"@ + "cpu"@).len() == 4);
    assert(("+"@ + "memory"@).len() == 7);
    assert(("+"@ + "io"@).len() == 3);
    if list.contains(name) {
        let at: int = if name == "cpu"@ {
            0
        } else if name == "memory"@ {
            c.len() as int
        } else {
            (c.len() + m.len()) as int
        };
        assert(all[at] == "+"@ + name);
    }
    if all.contains("+"@ + name) {
        let at = choose|at: int| 0 <= at < all.len() && all[at] == "+"@ + name;
        if at < c.len() {
            assert(all[at] == c[0]);
        } else if at < c.len() + m.len() {
            assert(all[at] == m[0]);
        } else {
            assert(all[at] == i[0]);
        }
    }
}

} // verus!
