//! Conversion of root file systems between squashfs and ext4.
use vstd::prelude::*;
use crate::build::cache::Ext4Cache;
use crate::build::error::{fail, failed, BuildError, CommandOutput, ErrorKind};
use crate::build::runner::BuildRunner;
use crate::flow::{is_run, lemma_shorter_run, Step};
use crate::path::{flat_key, flatten_key, join_path, joined_path};
use crate::text::{concat2, owned, texts};

verus! {

/// What a conversion asks for.
pub enum ConvertAction {
    /// Create the directory and its parents.
    CreateDir { path: String },
    /// Create a temporary directory.
    MakeTempDir,
    /// Extract a squashfs into a directory.
    Extract { squashfs: String, dest: String },
    /// Run a program to its end.
    Run { program: String, args: Vec<String> },
    /// Mount a device.
    Mount { device: String, dir: String, fstype: String },
    /// Unmount a directory.
    Unmount { dir: String },
    /// Find out whether the path exists.
    Probe { path: String },
    /// Convert a squashfs to ext4.
    ToExt4 { squashfs: String, ext4: String },
}

/// Why a device was not mounted.
pub enum MountError {
    /// A path cannot be handed to the system.
    Path(String),
    /// The system refused.
    System(String),
}

/// What happened to the last action of a conversion.
pub enum ConvertEvent {
    Start,
    Done(Result<(), String>),
    TempDir(Result<String, String>),
    Extracted(Result<(), BuildError>),
    Ran(Result<CommandOutput, String>),
    Mounted(Result<(), MountError>),
    Probed(bool),
    Converted(Result<(), BuildError>),
}

/// The answer of a conversion to an event.
pub type ConvertStep<T> = Step<ConvertAction, T, BuildError>;

/// The step runs `program` with `args`.
pub open spec fn runs<T>(step: ConvertStep<T>, program: Seq<char>, args: Seq<Seq<char>>) -> bool {
    step matches Step::Do(ConvertAction::Run { program: p, args: a }) && p@ == program && texts(a)
        == args
}

/// Runs `program` with these arguments.
fn run<T>(program: &str, args: Vec<String>) -> (r: ConvertStep<T>)
    ensures
        runs(r, program@, texts(args)),
{
    Step::Do(ConvertAction::Run { program: owned(program), args })
}

/// How far an extraction has come.
#[derive(Clone, Copy, PartialEq, Eq, Structural)]
pub enum ExtractPhase {
    Begin,
    CreateDir,
    Unsquash,
    Finished,
}

/// Workflow that extracts a squashfs into a directory.
pub struct ExtractFlow {
    pub squashfs: String,
    pub dest: String,
    pub phase: ExtractPhase,
}

/// The arguments of `unsquashfs`.
pub open spec fn unsquashfs_args(squashfs: Seq<char>, dest: Seq<char>) -> Seq<Seq<char>> {
    seq!["-f"@, "-d"@, dest, squashfs]
}

impl ExtractFlow {
    /// How the workflow answers an event.
    pub open spec fn transition(
        pre: ExtractFlow,
        event: ConvertEvent,
        post: ExtractFlow,
        step: ConvertStep<()>,
    ) -> bool {
        match (pre.phase, event) {
            (ExtractPhase::Begin, ConvertEvent::Start) => {
                &&& post == ExtractFlow { phase: ExtractPhase::CreateDir, ..pre }
                &&& step matches Step::Do(ConvertAction::CreateDir { path }) && path@ == pre.dest@
            },
            (ExtractPhase::CreateDir, ConvertEvent::Done(Ok(_))) => {
                &&& post == ExtractFlow { phase: ExtractPhase::Unsquash, ..pre }
                &&& runs(step, "unsquashfs"@, unsquashfs_args(pre.squashfs@, pre.dest@))
            },
            (ExtractPhase::CreateDir, ConvertEvent::Done(Err(e))) => {
                &&& post == ExtractFlow { phase: ExtractPhase::Finished, ..pre }
                &&& failed(step, ErrorKind::Injection, "Failed to create extract dir: "@ + e@)
            },
            (ExtractPhase::Unsquash, ConvertEvent::Ran(Err(e))) => {
                &&& post == ExtractFlow { phase: ExtractPhase::Finished, ..pre }
                &&& failed(step, ErrorKind::Injection, "Failed to run unsquashfs: "@ + e@)
            },
            (ExtractPhase::Unsquash, ConvertEvent::Ran(Ok(output))) => {
                &&& post == ExtractFlow { phase: ExtractPhase::Finished, ..pre }
                &&& if output.success {
                    step matches Step::Return(Ok(_))
                } else {
                    failed(step, ErrorKind::Injection, "unsquashfs failed: "@ + output.stderr@)
                }
            },
            _ => post == pre && step is Unexpected,
        }
    }

    /// Takes the outcome of the last action and says what to do next.
    pub fn step(&mut self, event: ConvertEvent) -> (r: ConvertStep<()>)
        ensures
            Self::transition(*old(self), event, *final(self), r),
    {
        match (self.phase, event) {
            (ExtractPhase::Begin, ConvertEvent::Start) => {
                self.phase = ExtractPhase::CreateDir;
                Step::Do(ConvertAction::CreateDir { path: self.dest.clone() })
            },
            (ExtractPhase::CreateDir, ConvertEvent::Done(Ok(_))) => {
                self.phase = ExtractPhase::Unsquash;
                let args: Vec<String> = vec![
                    owned("-f"),
                    owned("-d"),
                    self.dest.clone(),
                    self.squashfs.clone(),
                ];
                assert(texts(args) =~= unsquashfs_args(self.squashfs@, self.dest@));
                run("unsquashfs", args)
            },
            (ExtractPhase::CreateDir, ConvertEvent::Done(Err(e))) => {
                self.phase = ExtractPhase::Finished;
                fail(ErrorKind::Injection, "Failed to create extract dir: ", e.as_str())
            },
            (ExtractPhase::Unsquash, ConvertEvent::Ran(Err(e))) => {
                self.phase = ExtractPhase::Finished;
                fail(ErrorKind::Injection, "Failed to run unsquashfs: ", e.as_str())
            },
            (ExtractPhase::Unsquash, ConvertEvent::Ran(Ok(output))) => {
                self.phase = ExtractPhase::Finished;
                if output.success {
                    Step::Return(Ok(()))
                } else {
                    fail(ErrorKind::Injection, "unsquashfs failed: ", output.stderr.as_str())
                }
            },
            _ => Step::Unexpected,
        }
    }
}

/// How far a conversion to ext4 has come.
#[derive(Clone, Copy, PartialEq, Eq, Structural)]
pub enum ToExt4Phase {
    Begin,
    TempDir,
    Extract,
    Truncate,
    Format,
    Finished,
}

/// Workflow that converts a squashfs to an ext4 file system in a sparse file.
pub struct ToExt4Flow {
    pub squashfs: String,
    pub ext4: String,
    /// The directory that the squashfs is extracted to.
    pub temp: String,
    pub phase: ToExt4Phase,
}

/// The arguments of `truncate`.
pub open spec fn truncate_args(ext4: Seq<char>) -> Seq<Seq<char>> {
    seq!["-s"@, "2G"@, ext4]
}

/// The arguments of `mkfs.ext4`.
pub open spec fn mkfs_args(temp: Seq<char>, ext4: Seq<char>) -> Seq<Seq<char>> {
    seq!["-F"@, "-d"@, temp, ext4]
}

impl ToExt4Flow {
    /// How the workflow answers an event.
    pub open spec fn transition(
        pre: ToExt4Flow,
        event: ConvertEvent,
        post: ToExt4Flow,
        step: ConvertStep<()>,
    ) -> bool {
        let finished = ToExt4Flow { phase: ToExt4Phase::Finished, ..pre };
        match (pre.phase, event) {
            (ToExt4Phase::Begin, ConvertEvent::Start) => {
                &&& post == ToExt4Flow { phase: ToExt4Phase::TempDir, ..pre }
                &&& step matches Step::Do(ConvertAction::MakeTempDir)
            },
            (ToExt4Phase::TempDir, ConvertEvent::TempDir(Err(e))) => {
                &&& post == finished
                &&& failed(step, ErrorKind::Execution, "Failed to create temp dir: "@ + e@)
            },
            (ToExt4Phase::TempDir, ConvertEvent::TempDir(Ok(temp))) => {
                &&& post == ToExt4Flow { temp: temp, phase: ToExt4Phase::Extract, ..pre }
                &&& step matches Step::Do(ConvertAction::Extract { squashfs, dest }) && squashfs@
                    == pre.squashfs@ && dest@ == temp@
            },
            (ToExt4Phase::Extract, ConvertEvent::Extracted(Err(e))) => {
                &&& post == finished
                &&& step == ConvertStep::<()>::Return(Err(e))
            },
            (ToExt4Phase::Extract, ConvertEvent::Extracted(Ok(_))) => {
                &&& post == ToExt4Flow { phase: ToExt4Phase::Truncate, ..pre }
                &&& runs(step, "truncate"@, truncate_args(pre.ext4@))
            },
            (ToExt4Phase::Truncate, ConvertEvent::Ran(Err(e))) => {
                &&& post == finished
                &&& failed(step, ErrorKind::Execution, "Failed to run truncate: "@ + e@)
            },
            (ToExt4Phase::Truncate, ConvertEvent::Ran(Ok(output))) => {
                if output.success {
                    &&& post == ToExt4Flow { phase: ToExt4Phase::Format, ..pre }
                    &&& runs(step, "mkfs.ext4"@, mkfs_args(pre.temp@, pre.ext4@))
                } else {
                    &&& post == finished
                    &&& failed(step, ErrorKind::Execution, "truncate failed: "@ + output.stderr@)
                }
            },
            (ToExt4Phase::Format, ConvertEvent::Ran(Err(e))) => {
                &&& post == finished
                &&& failed(step, ErrorKind::Execution, "Failed to run mkfs.ext4: "@ + e@)
            },
            (ToExt4Phase::Format, ConvertEvent::Ran(Ok(output))) => {
                &&& post == finished
                &&& if output.success {
                    step matches Step::Return(Ok(_))
                } else {
                    failed(step, ErrorKind::Execution, "mkfs.ext4 failed: "@ + output.stderr@)
                }
            },
            _ => post == pre && step is Unexpected,
        }
    }

    /// Takes the outcome of the last action and says what to do next.
    pub fn step(&mut self, event: ConvertEvent) -> (r: ConvertStep<()>)
        ensures
            Self::transition(*old(self), event, *final(self), r),
    {
        match (self.phase, event) {
            (ToExt4Phase::Begin, ConvertEvent::Start) => {
                self.phase = ToExt4Phase::TempDir;
                Step::Do(ConvertAction::MakeTempDir)
            },
            (ToExt4Phase::TempDir, ConvertEvent::TempDir(Err(e))) => {
                self.phase = ToExt4Phase::Finished;
                fail(ErrorKind::Execution, "Failed to create temp dir: ", e.as_str())
            },
            (ToExt4Phase::TempDir, ConvertEvent::TempDir(Ok(temp))) => {
                let dest = temp.clone();
                self.temp = temp;
                self.phase = ToExt4Phase::Extract;
                Step::Do(ConvertAction::Extract { squashfs: self.squashfs.clone(), dest })
            },
            (ToExt4Phase::Extract, ConvertEvent::Extracted(Err(e))) => {
                self.phase = ToExt4Phase::Finished;
                Step::Return(Err(e))
            },
            (ToExt4Phase::Extract, ConvertEvent::Extracted(Ok(_))) => {
                self.phase = ToExt4Phase::Truncate;
                let args: Vec<String> = vec![owned("-s"), owned("2G"), self.ext4.clone()];
                assert(texts(args) =~= truncate_args(self.ext4@));
                run("truncate", args)
            },
            (ToExt4Phase::Truncate, ConvertEvent::Ran(Err(e))) => {
                self.phase = ToExt4Phase::Finished;
                fail(ErrorKind::Execution, "Failed to run truncate: ", e.as_str())
            },
            (ToExt4Phase::Truncate, ConvertEvent::Ran(Ok(output))) => {
                if output.success {
                    self.phase = ToExt4Phase::Format;
                    let args: Vec<String> = vec![
                        owned("-F"),
                        owned("-d"),
                        self.temp.clone(),
                        self.ext4.clone(),
                    ];
                    assert(texts(args) =~= mkfs_args(self.temp@, self.ext4@));
                    run("mkfs.ext4", args)
                } else {
                    self.phase = ToExt4Phase::Finished;
                    fail(ErrorKind::Execution, "truncate failed: ", output.stderr.as_str())
                }
            },
            (ToExt4Phase::Format, ConvertEvent::Ran(Err(e))) => {
                self.phase = ToExt4Phase::Finished;
                fail(ErrorKind::Execution, "Failed to run mkfs.ext4: ", e.as_str())
            },
            (ToExt4Phase::Format, ConvertEvent::Ran(Ok(output))) => {
                self.phase = ToExt4Phase::Finished;
                if output.success {
                    Step::Return(Ok(()))
                } else {
                    fail(ErrorKind::Execution, "mkfs.ext4 failed: ", output.stderr.as_str())
                }
            },
            _ => Step::Unexpected,
        }
    }
}

/// How far a conversion to squashfs has come.
#[derive(Clone, Copy, PartialEq, Eq, Structural)]
pub enum ToSquashfsPhase {
    Begin,
    MountDir,
    Mount,
    Squash,
    Unmount,
    Finished,
}

/// Workflow that converts an ext4 device to a squashfs.
pub struct ToSquashfsFlow {
    pub ext4: String,
    pub squashfs: String,
    /// The directory that the device is mounted at.
    pub dir: String,
    /// What `mksquashfs` left behind.
    pub success: bool,
    pub stderr: String,
    pub phase: ToSquashfsPhase,
}

/// The arguments of `mksquashfs`.
pub open spec fn mksquashfs_args(dir: Seq<char>, squashfs: Seq<char>) -> Seq<Seq<char>> {
    seq![dir, squashfs, "-comp"@, "zstd"@, "-quiet"@]
}

impl ToSquashfsFlow {
    /// How the workflow answers an event.
    pub open spec fn transition(
        pre: ToSquashfsFlow,
        event: ConvertEvent,
        post: ToSquashfsFlow,
        step: ConvertStep<()>,
    ) -> bool {
        let finished = ToSquashfsFlow { phase: ToSquashfsPhase::Finished, ..pre };
        match (pre.phase, event) {
            (ToSquashfsPhase::Begin, ConvertEvent::Start) => {
                &&& post == ToSquashfsFlow { phase: ToSquashfsPhase::MountDir, ..pre }
                &&& step matches Step::Do(ConvertAction::MakeTempDir)
            },
            (ToSquashfsPhase::MountDir, ConvertEvent::TempDir(Err(e))) => {
                &&& post == finished
                &&& failed(step, ErrorKind::Execution, "Failed to create mount dir: "@ + e@)
            },
            (ToSquashfsPhase::MountDir, ConvertEvent::TempDir(Ok(temp))) => {
                &&& post == ToSquashfsFlow { dir: temp, phase: ToSquashfsPhase::Mount, ..pre }
                &&& step matches Step::Do(ConvertAction::Mount { device, dir, fstype }) && device@
                    == pre.ext4@ && dir@ == temp@ && fstype@ == "ext4"@
            },
            (ToSquashfsPhase::Mount, ConvertEvent::Mounted(Err(MountError::Path(e)))) => {
                &&& post == finished
                &&& failed(step, ErrorKind::Execution, "CString error: "@ + e@)
            },
            (ToSquashfsPhase::Mount, ConvertEvent::Mounted(Err(MountError::System(e)))) => {
                &&& post == finished
                &&& failed(step, ErrorKind::Execution, "mount syscall failed: "@ + e@)
            },
            (ToSquashfsPhase::Mount, ConvertEvent::Mounted(Ok(_))) => {
                &&& post == ToSquashfsFlow { phase: ToSquashfsPhase::Squash, ..pre }
                &&& runs(step, "mksquashfs"@, mksquashfs_args(pre.dir@, pre.squashfs@))
            },
            (ToSquashfsPhase::Squash, ConvertEvent::Ran(Err(e))) => {
                &&& post == finished
                &&& failed(step, ErrorKind::Execution, "Failed to execute mksquashfs: "@ + e@)
            },
            (ToSquashfsPhase::Squash, ConvertEvent::Ran(Ok(output))) => {
                &&& post == ToSquashfsFlow {
                    success: output.success,
                    stderr: output.stderr,
                    phase: ToSquashfsPhase::Unmount,
                    ..pre
                }
                &&& step matches Step::Do(ConvertAction::Unmount { dir }) && dir@ == pre.dir@
            },
            (ToSquashfsPhase::Unmount, ConvertEvent::Done(_)) => {
                &&& post == finished
                &&& if pre.success {
                    step matches Step::Return(Ok(_))
                } else {
                    failed(step, ErrorKind::Execution, "mksquashfs failed: "@ + pre.stderr@)
                }
            },
            _ => post == pre && step is Unexpected,
        }
    }

    /// Takes the outcome of the last action and says what to do next. Once `mksquashfs` has run,
    /// the device is unmounted whatever came of it.
    pub fn step(&mut self, event: ConvertEvent) -> (r: ConvertStep<()>)
        ensures
            Self::transition(*old(self), event, *final(self), r),
    {
        match (self.phase, event) {
            (ToSquashfsPhase::Begin, ConvertEvent::Start) => {
                self.phase = ToSquashfsPhase::MountDir;
                Step::Do(ConvertAction::MakeTempDir)
            },
            (ToSquashfsPhase::MountDir, ConvertEvent::TempDir(Err(e))) => {
                self.phase = ToSquashfsPhase::Finished;
                fail(ErrorKind::Execution, "Failed to create mount dir: ", e.as_str())
            },
            (ToSquashfsPhase::MountDir, ConvertEvent::TempDir(Ok(temp))) => {
                let dir = temp.clone();
                self.dir = temp;
                self.phase = ToSquashfsPhase::Mount;
                Step::Do(
                    ConvertAction::Mount { device: self.ext4.clone(), dir, fstype: owned("ext4") },
                )
            },
            (ToSquashfsPhase::Mount, ConvertEvent::Mounted(Err(MountError::Path(e)))) => {
                self.phase = ToSquashfsPhase::Finished;
                fail(ErrorKind::Execution, "CString error: ", e.as_str())
            },
            (ToSquashfsPhase::Mount, ConvertEvent::Mounted(Err(MountError::System(e)))) => {
                self.phase = ToSquashfsPhase::Finished;
                fail(ErrorKind::Execution, "mount syscall failed: ", e.as_str())
            },
            (ToSquashfsPhase::Mount, ConvertEvent::Mounted(Ok(_))) => {
                self.phase = ToSquashfsPhase::Squash;
                let args: Vec<String> = vec![
                    self.dir.clone(),
                    self.squashfs.clone(),
                    owned("-comp"),
                    owned("zstd"),
                    owned("-quiet"),
                ];
                assert(texts(args) =~= mksquashfs_args(self.dir@, self.squashfs@));
                run("mksquashfs", args)
            },
            (ToSquashfsPhase::Squash, ConvertEvent::Ran(Err(e))) => {
                self.phase = ToSquashfsPhase::Finished;
                fail(ErrorKind::Execution, "Failed to execute mksquashfs: ", e.as_str())
            },
            (ToSquashfsPhase::Squash, ConvertEvent::Ran(Ok(output))) => {
                self.success = output.success;
                self.stderr = output.stderr;
                self.phase = ToSquashfsPhase::Unmount;
                Step::Do(ConvertAction::Unmount { dir: self.dir.clone() })
            },
            (ToSquashfsPhase::Unmount, ConvertEvent::Done(_)) => {
                self.phase = ToSquashfsPhase::Finished;
                if self.success {
                    Step::Return(Ok(()))
                } else {
                    fail(ErrorKind::Execution, "mksquashfs failed: ", self.stderr.as_str())
                }
            },
            _ => Step::Unexpected,
        }
    }
}

/// How far a cached conversion has come.
#[derive(Clone, Copy, PartialEq, Eq, Structural)]
pub enum CachePhase {
    Begin,
    CreateDir,
    Probe,
    Convert,
    Finished,
}

/// Workflow that provides the ext4 form of a squashfs through the cache.
pub struct CacheFlow {
    pub squashfs: String,
    pub key: String,
    pub dir: String,
    pub ext4: String,
    pub phase: CachePhase,
}

/// The directory of cached conversions.
pub open spec fn cache_dir(work_dir: Seq<char>) -> Seq<char> {
    joined_path(work_dir, "ext4-cache"@)
}

/// The file of a cached conversion.
pub open spec fn cache_file(work_dir: Seq<char>, key: Seq<char>) -> Seq<char> {
    joined_path(cache_dir(work_dir), flat_key(key) + ".ext4"@)
}

impl CacheFlow {
    /// How the workflow answers an event, with the cache before and after.
    pub open spec fn transition(
        pre: CacheFlow,
        cache: Map<Seq<char>, Seq<char>>,
        event: ConvertEvent,
        post: CacheFlow,
        cache_after: Map<Seq<char>, Seq<char>>,
        step: ConvertStep<String>,
    ) -> bool {
        let finished = CacheFlow { phase: CachePhase::Finished, ..pre };
        match (pre.phase, event) {
            (CachePhase::Begin, ConvertEvent::Start) => {
                &&& cache_after == cache
                &&& post == CacheFlow { phase: CachePhase::CreateDir, ..pre }
                &&& step matches Step::Do(ConvertAction::CreateDir { path }) && path@ == pre.dir@
            },
            (CachePhase::CreateDir, ConvertEvent::Done(Err(e))) => {
                &&& cache_after == cache
                &&& post == finished
                &&& failed(step, ErrorKind::Execution, "Failed to create cache dir: "@ + e@)
            },
            (CachePhase::CreateDir, ConvertEvent::Done(Ok(_))) => {
                &&& cache_after == cache
                &&& post == CacheFlow { phase: CachePhase::Probe, ..pre }
                &&& step matches Step::Do(ConvertAction::Probe { path }) && path@ == pre.ext4@
            },
            (CachePhase::Probe, ConvertEvent::Probed(present)) => {
                &&& cache_after == cache
                &&& if present {
                    &&& post == finished
                    &&& step matches Step::Return(Ok(path)) && path@ == pre.ext4@
                } else {
                    &&& post == CacheFlow { phase: CachePhase::Convert, ..pre }
                    &&& step matches Step::Do(ConvertAction::ToExt4 { squashfs, ext4 }) && squashfs@
                        == pre.squashfs@ && ext4@ == pre.ext4@
                }
            },
            (CachePhase::Convert, ConvertEvent::Converted(Err(e))) => {
                &&& cache_after == cache
                &&& post == finished
                &&& step == ConvertStep::<String>::Return(Err(e))
            },
            (CachePhase::Convert, ConvertEvent::Converted(Ok(_))) => {
                &&& cache_after == cache.insert(pre.key@, pre.ext4@)
                &&& post == finished
                &&& step matches Step::Return(Ok(path)) && path@ == pre.ext4@
            },
            _ => cache_after == cache && post == pre && step is Unexpected,
        }
    }

    /// Takes the outcome of the last action and says what to do next. A conversion that is made
    /// is entered into the cache; a file that is there already is not.
    pub fn step(&mut self, cache: &mut Ext4Cache, event: ConvertEvent) -> (r: ConvertStep<String>)
        requires
            old(cache).wf(),
        ensures
            Self::transition(*old(self), old(cache)@, event, *final(self), final(cache)@, r),
            final(cache).wf(),
    {
        match (self.phase, event) {
            (CachePhase::Begin, ConvertEvent::Start) => {
                self.phase = CachePhase::CreateDir;
                Step::Do(ConvertAction::CreateDir { path: self.dir.clone() })
            },
            (CachePhase::CreateDir, ConvertEvent::Done(Err(e))) => {
                self.phase = CachePhase::Finished;
                fail(ErrorKind::Execution, "Failed to create cache dir: ", e.as_str())
            },
            (CachePhase::CreateDir, ConvertEvent::Done(Ok(_))) => {
                self.phase = CachePhase::Probe;
                Step::Do(ConvertAction::Probe { path: self.ext4.clone() })
            },
            (CachePhase::Probe, ConvertEvent::Probed(present)) => {
                if present {
                    self.phase = CachePhase::Finished;
                    Step::Return(Ok(self.ext4.clone()))
                } else {
                    self.phase = CachePhase::Convert;
                    Step::Do(
                        ConvertAction::ToExt4 {
                            squashfs: self.squashfs.clone(),
                            ext4: self.ext4.clone(),
                        },
                    )
                }
            },
            (CachePhase::Convert, ConvertEvent::Converted(Err(e))) => {
                self.phase = CachePhase::Finished;
                Step::Return(Err(e))
            },
            (CachePhase::Convert, ConvertEvent::Converted(Ok(_))) => {
                self.phase = CachePhase::Finished;
                cache.insert(self.key.clone(), self.ext4.clone());
                Step::Return(Ok(self.ext4.clone()))
            },
            _ => Step::Unexpected,
        }
    }
}

impl BuildRunner {
    /// Begins to extract a squashfs into a directory.
    pub fn extract_squashfs(&self, squashfs_path: &str, dest_dir: &str) -> (r: ExtractFlow)
        ensures
            r.squashfs@ == squashfs_path@,
            r.dest@ == dest_dir@,
            r.phase == ExtractPhase::Begin,
    {
        ExtractFlow {
            squashfs: owned(squashfs_path),
            dest: owned(dest_dir),
            phase: ExtractPhase::Begin,
        }
    }

    /// Begins to convert a squashfs to ext4.
    pub fn squashfs_to_ext4(&self, squashfs: &str, ext4: &str) -> (r: ToExt4Flow)
        ensures
            r.squashfs@ == squashfs@,
            r.ext4@ == ext4@,
            r.phase == ToExt4Phase::Begin,
    {
        ToExt4Flow {
            squashfs: owned(squashfs),
            ext4: owned(ext4),
            temp: String::new(),
            phase: ToExt4Phase::Begin,
        }
    }

    /// Begins to convert an ext4 device to squashfs.
    pub fn ext4_to_squashfs(&self, ext4: &str, squashfs: &str) -> (r: ToSquashfsFlow)
        ensures
            r.ext4@ == ext4@,
            r.squashfs@ == squashfs@,
            r.phase == ToSquashfsPhase::Begin,
    {
        ToSquashfsFlow {
            ext4: owned(ext4),
            squashfs: owned(squashfs),
            dir: String::new(),
            success: false,
            stderr: String::new(),
            phase: ToSquashfsPhase::Begin,
        }
    }

    /// Begins to provide the ext4 form of a squashfs, under a key of the cache.
    pub fn create_cached_ext4(&self, squashfs: &str, cache_key: &str) -> (r: CacheFlow)
        ensures
            r.squashfs@ == squashfs@,
            r.key@ == cache_key@,
            r.dir@ == cache_dir(self.work_dir@),
            r.ext4@ == cache_file(self.work_dir@, cache_key@),
            r.phase == CachePhase::Begin,
    {
        let dir = join_path(self.work_dir.as_str(), "ext4-cache");
        let name = concat2(flatten_key(cache_key).as_str(), ".ext4");
        let ext4 = join_path(dir.as_str(), name.as_str());
        CacheFlow {
            squashfs: owned(squashfs),
            key: owned(cache_key),
            dir,
            ext4,
            phase: CachePhase::Begin,
        }
    }
}

/// The steps of a conversion to squashfs.
pub open spec fn to_squashfs_next() -> spec_fn(
    ToSquashfsFlow,
    ConvertEvent,
    ToSquashfsFlow,
    ConvertStep<()>,
) -> bool {
    |pre: ToSquashfsFlow, event: ConvertEvent, post: ToSquashfsFlow, step: ConvertStep<()>|
        ToSquashfsFlow::transition(pre, event, post, step)
}

/// `mksquashfs` has run to its end.
pub open spec fn squashed(flow: ToSquashfsFlow, event: ConvertEvent) -> bool {
    flow.phase == ToSquashfsPhase::Squash && (event matches ConvertEvent::Ran(Ok(_)))
}

/// The answer unmounts this directory.
pub open spec fn unmounts(step: ConvertStep<()>, dir: Seq<char>) -> bool {
    step matches Step::Do(ConvertAction::Unmount { dir: d }) && d@ == dir
}

/// The answer mounts an ext4 device at this directory.
pub open spec fn mounts(step: ConvertStep<()>, ext4: Seq<char>, at: Seq<char>) -> bool {
    step matches Step::Do(ConvertAction::Mount { device, dir, fstype }) && device@ == ext4 && dir@
        == at && fstype@ == "ext4"@
}

/// A program has run, and this is whether it succeeded.
pub open spec fn ran(event: ConvertEvent, success: bool) -> bool {
    event matches ConvertEvent::Ran(Ok(output)) && output.success == success
}

/// As soon as `mksquashfs` has run to its end, whatever came of it, the device is to be unmounted
/// from the directory that it was mounted at.
pub proof fn device_is_unmounted_after_squashing(
    states: Seq<ToSquashfsFlow>,
    events: Seq<ConvertEvent>,
    steps: Seq<ConvertStep<()>>,
    i: int,
)
    requires
        is_run(to_squashfs_next(), states, events, steps),
        0 <= i < steps.len(),
        squashed(states[i], events[i]),
    ensures
        unmounts(steps[i], states[i].dir@),
{
    assert(to_squashfs_next()(states[i], events[i], states[i + 1], steps[i]));
}

/// What the first `stage` of these have come to: at `a` the device was to be mounted, at `b` it was
/// and `mksquashfs` was to make the squashfs of it, and at `c` that had run and the device was to be
/// unmounted.
pub open spec fn squashed_so_far(
    states: Seq<ToSquashfsFlow>,
    events: Seq<ConvertEvent>,
    steps: Seq<ConvertStep<()>>,
    stage: int,
    a: int,
    b: int,
    c: int,
) -> bool {
    let flow = states.last();
    &&& stage >= 1 ==> 0 <= a < steps.len() && mounts(steps[a], flow.ext4@, flow.dir@)
    &&& stage >= 2 ==> a < b < steps.len() && states[b].phase == ToSquashfsPhase::Mount && (
    events[b] matches ConvertEvent::Mounted(Ok(_))) && runs(
        steps[b],
        "mksquashfs"@,
        mksquashfs_args(flow.dir@, flow.squashfs@),
    )
    &&& stage >= 3 ==> b < c < steps.len() && states[c].phase == ToSquashfsPhase::Squash && ran(
        events[c],
        flow.success,
    ) && unmounts(steps[c], flow.dir@)
}

/// How many of the stages of `squashed_so_far` lie behind a phase.
spec fn squash_stage(phase: ToSquashfsPhase) -> int {
    match phase {
        ToSquashfsPhase::Mount => 1,
        ToSquashfsPhase::Squash => 2,
        ToSquashfsPhase::Unmount => 3,
        _ => 0,
    }
}

proof fn lemma_squashed(
    states: Seq<ToSquashfsFlow>,
    events: Seq<ConvertEvent>,
    steps: Seq<ConvertStep<()>>,
)
    requires
        is_run(to_squashfs_next(), states, events, steps),
        states[0].phase == ToSquashfsPhase::Begin,
    ensures
        states.last().ext4 == states[0].ext4,
        states.last().squashfs == states[0].squashfs,
        exists|a: int, b: int, c: int| #[trigger]
            squashed_so_far(states, events, steps, squash_stage(states.last().phase), a, b, c),
    decreases steps.len(),
{
    let now = squash_stage(states.last().phase);
    if steps.len() == 0 {
        assert(squashed_so_far(states, events, steps, now, 0, 0, 0));
    } else {
        lemma_shorter_run(to_squashfs_next(), states, events, steps);
        let s = states.drop_last();
        let e = events.drop_last();
        let t = steps.drop_last();
        let n = steps.len() - 1;
        lemma_squashed(s, e, t);
        let before = squash_stage(s.last().phase);
        let (a, b, c) = choose|a: int, b: int, c: int| #[trigger]
            squashed_so_far(s, e, t, before, a, b, c);
        if now == before || now == 0 {
            assert(squashed_so_far(states, events, steps, now, a, b, c));
        } else if now == 1 {
            assert(squashed_so_far(states, events, steps, now, n, b, c));
        } else if now == 2 {
            assert(squashed_so_far(states, events, steps, now, a, n, c));
        } else {
            assert(squashed_so_far(states, events, steps, now, a, b, n));
        }
    }
}

/// A conversion to squashfs that succeeds has had the device mounted, has had `mksquashfs` make the
/// squashfs of what was mounted, which succeeded, and has then asked to unmount the device.
pub proof fn successful_squashing_holds_the_device(
    states: Seq<ToSquashfsFlow>,
    events: Seq<ConvertEvent>,
    steps: Seq<ConvertStep<()>>,
)
    requires
        is_run(to_squashfs_next(), states, events, steps),
        states[0].phase == ToSquashfsPhase::Begin,
        steps.len() > 0,
        steps.last() matches Step::Return(Ok(_)),
    ensures
        states.last().ext4 == states[0].ext4,
        states.last().squashfs == states[0].squashfs,
        states.last().success,
        exists|a: int, b: int, c: int| #[trigger]
            squashed_so_far(states, events, steps, 3, a, b, c),
{
    lemma_shorter_run(to_squashfs_next(), states, events, steps);
    let s = states.drop_last();
    let e = events.drop_last();
    let t = steps.drop_last();
    lemma_squashed(s, e, t);
    let (a, b, c) = choose|a: int, b: int, c: int| #[trigger] squashed_so_far(s, e, t, 3, a, b, c);
    assert(squashed_so_far(states, events, steps, 3, a, b, c));
}

/// The steps of a conversion to ext4.
pub open spec fn to_ext4_next() -> spec_fn(
    ToExt4Flow,
    ConvertEvent,
    ToExt4Flow,
    ConvertStep<()>,
) -> bool {
    |pre: ToExt4Flow, event: ConvertEvent, post: ToExt4Flow, step: ConvertStep<()>|
        ToExt4Flow::transition(pre, event, post, step)
}

/// The answer extracts this squashfs into this directory.
pub open spec fn extracts(step: ConvertStep<()>, squashfs: Seq<char>, dir: Seq<char>) -> bool {
    step matches Step::Do(ConvertAction::Extract { squashfs: s, dest }) && s@ == squashfs && dest@
        == dir
}

/// What the first `stage` of these have come to: at `a` the squashfs was to be extracted, at `b` it
/// was and the file was to be given its size, and at `c` it had that and was to be formatted with
/// what was extracted.
pub open spec fn formatted_so_far(
    states: Seq<ToExt4Flow>,
    events: Seq<ConvertEvent>,
    steps: Seq<ConvertStep<()>>,
    stage: int,
    a: int,
    b: int,
    c: int,
) -> bool {
    let flow = states.last();
    &&& stage >= 1 ==> 0 <= a < steps.len() && extracts(steps[a], flow.squashfs@, flow.temp@)
    &&& stage >= 2 ==> a < b < steps.len() && states[b].phase == ToExt4Phase::Extract && (
    events[b] matches ConvertEvent::Extracted(Ok(_))) && runs(
        steps[b],
        "truncate"@,
        truncate_args(flow.ext4@),
    )
    &&& stage >= 3 ==> b < c < steps.len() && states[c].phase == ToExt4Phase::Truncate && ran(
        events[c],
        true,
    ) && runs(steps[c], "mkfs.ext4"@, mkfs_args(flow.temp@, flow.ext4@))
}

/// How many of the stages of `formatted_so_far` lie behind a phase.
spec fn format_stage(phase: ToExt4Phase) -> int {
    match phase {
        ToExt4Phase::Extract => 1,
        ToExt4Phase::Truncate => 2,
        ToExt4Phase::Format => 3,
        _ => 0,
    }
}

proof fn lemma_formatted(
    states: Seq<ToExt4Flow>,
    events: Seq<ConvertEvent>,
    steps: Seq<ConvertStep<()>>,
)
    requires
        is_run(to_ext4_next(), states, events, steps),
        states[0].phase == ToExt4Phase::Begin,
    ensures
        states.last().squashfs == states[0].squashfs,
        states.last().ext4 == states[0].ext4,
        exists|a: int, b: int, c: int| #[trigger]
            formatted_so_far(states, events, steps, format_stage(states.last().phase), a, b, c),
    decreases steps.len(),
{
    let now = format_stage(states.last().phase);
    if steps.len() == 0 {
        assert(formatted_so_far(states, events, steps, now, 0, 0, 0));
    } else {
        lemma_shorter_run(to_ext4_next(), states, events, steps);
        let s = states.drop_last();
        let e = events.drop_last();
        let t = steps.drop_last();
        let n = steps.len() - 1;
        lemma_formatted(s, e, t);
        let before = format_stage(s.last().phase);
        let (a, b, c) = choose|a: int, b: int, c: int| #[trigger]
            formatted_so_far(s, e, t, before, a, b, c);
        if now == before || now == 0 {
            assert(formatted_so_far(states, events, steps, now, a, b, c));
        } else if now == 1 {
            assert(formatted_so_far(states, events, steps, now, n, b, c));
        } else if now == 2 {
            assert(formatted_so_far(states, events, steps, now, a, n, c));
        } else {
            assert(formatted_so_far(states, events, steps, now, a, b, n));
        }
    }
}

/// A conversion to ext4 that succeeds has had the squashfs extracted, has given the file its size,
/// and has formatted it with what was extracted; each of these succeeded.
pub proof fn successful_formatting_holds_the_squashfs(
    states: Seq<ToExt4Flow>,
    events: Seq<ConvertEvent>,
    steps: Seq<ConvertStep<()>>,
)
    requires
        is_run(to_ext4_next(), states, events, steps),
        states[0].phase == ToExt4Phase::Begin,
        steps.len() > 0,
        steps.last() matches Step::Return(Ok(_)),
    ensures
        states.last().squashfs == states[0].squashfs,
        states.last().ext4 == states[0].ext4,
        exists|a: int, b: int, c: int| #[trigger]
            formatted_so_far(states, events, steps, 3, a, b, c),
        states[steps.len() - 1].phase == ToExt4Phase::Format && ran(events.last(), true),
{
    lemma_shorter_run(to_ext4_next(), states, events, steps);
    let s = states.drop_last();
    let e = events.drop_last();
    let t = steps.drop_last();
    lemma_formatted(s, e, t);
    let (a, b, c) = choose|a: int, b: int, c: int| #[trigger] formatted_so_far(s, e, t, 3, a, b, c);
    assert(formatted_so_far(states, events, steps, 3, a, b, c));
}

/// A conversion that was made is found in the cache, and no other entry of the cache has changed.
pub proof fn conversion_is_found_in_cache(
    pre: CacheFlow,
    cache: Map<Seq<char>, Seq<char>>,
    post: CacheFlow,
    cache_after: Map<Seq<char>, Seq<char>>,
    step: ConvertStep<String>,
    other: Seq<char>,
)
    requires
        pre.phase == CachePhase::Convert,
        CacheFlow::transition(
            pre,
            cache,
            ConvertEvent::Converted(Ok(())),
            post,
            cache_after,
            step,
        ),
        other != pre.key@,
    ensures
        cache_after.contains_key(pre.key@),
        step matches Step::Return(Ok(path)) && cache_after[pre.key@] == path@,
        cache_after.contains_key(other) == cache.contains_key(other),
        cache.contains_key(other) ==> cache_after[other] == cache[other],
{
}

} // verus!
