//! Loop devices and copy-on-write files.
use vstd::prelude::*;
use crate::flow::{is_run, lemma_shorter_run, Step};
use crate::path::{debug_path, parent_of, path_debug, path_parent};
use crate::text::{concat2, owned, texts, trim, trimmed};

verus! {

/// The error number of a refused permission.
pub const EACCES: i32 = 13;

/// How often a failed fallback is repeated.
pub const MAX_RETRIES: u32 = 50;

/// The pause before a repetition, in milliseconds.
pub const RETRY_PAUSE: u64 = 20;

/// Bytes in a mebibyte.
pub const MEBIBYTE: u64 = 1048576;

/// An error of the operating system.
#[derive(Debug)]
pub struct OsError {
    /// The error number, where there is one.
    pub code: Option<i32>,
    /// The error as text.
    pub message: String,
}

/// Why a storage operation failed.
#[derive(Debug)]
pub enum StorageError {
    /// The operating system refused an operation.
    Io(OsError),
    /// Something that the operation needs does not exist.
    NotFound(String),
}

/// A loop device. `H` is the handle through which a device that was attached natively is
/// controlled.
pub struct LoopDevice<H> {
    pub path: String,
    pub device: Option<H>,
}

impl<H> LoopDevice<H> {
    /// A device with a path and, if it was attached natively, its handle.
    pub fn new(path: String, device: Option<H>) -> (r: LoopDevice<H>)
        ensures
            r.path == path,
            r.device == device,
    {
        LoopDevice { path, device }
    }

    /// The path of the device.
    pub fn path(&self) -> (r: &str)
        ensures
            r@ == self.path@,
    {
        self.path.as_str()
    }
}

/// Attaches and detaches loop devices through a control device `C`.
pub struct LoopManager<C> {
    control: C,
}

/// How far an attachment has come.
#[derive(Clone, Copy, PartialEq, Eq, Structural)]
pub enum AttachPhase {
    Begin,
    Probe,
    Open,
    NextFree,
    Attach,
    Losetup,
    Pause,
    Finished,
}

/// What an attachment asks for.
pub enum AttachAction {
    /// Find out whether the file exists.
    Probe { file: String },
    /// Try to open the file, to have the outcome on record.
    Open { file: String, write: bool },
    /// Reserve the next free loop device.
    NextFree,
    /// Attach the file to the reserved device.
    Attach { file: String, readonly: bool },
    /// Run `losetup` with these arguments.
    Losetup { args: Vec<String> },
    /// Wait.
    Pause { millis: u64 },
}

/// What happened to the last action of an attachment.
pub enum AttachEvent<H> {
    Start,
    Probed(bool),
    Opened(bool),
    Free(Result<(), OsError>),
    /// The path of the device and its handle.
    Attached(Result<(String, H), OsError>),
    /// Whether `losetup` succeeded, and what it printed; an error if it could not be run.
    Losetup(Result<(bool, String), String>),
    Paused,
}

/// Workflow that attaches a file to a loop device.
///
/// The device is attached natively where that is permitted. Where permission is refused `losetup`
/// is tried instead, and the whole attempt is repeated while `losetup` fails.
pub struct AttachFlow {
    pub file: String,
    pub readonly: bool,
    pub retries: u32,
    pub error: OsError,
    pub phase: AttachPhase,
}

/// The arguments of `losetup` for a file.
pub open spec fn losetup_args(file: Seq<char>, readonly: bool) -> Seq<Seq<char>> {
    if readonly {
        seq!["-f"@, "--show"@, "-r"@, file]
    } else {
        seq!["-f"@, "--show"@, file]
    }
}

/// The arguments of `losetup` for a file.
pub fn losetup_arguments(file: &str, readonly: bool) -> (r: Vec<String>)
    ensures
        texts(r) == losetup_args(file@, readonly),
{
    let mut args: Vec<String> = Vec::new();
    args.push(owned("-f"));
    args.push(owned("--show"));
    if readonly {
        args.push(owned("-r"));
    }
    args.push(owned(file));
    assert(texts(args) =~= losetup_args(file@, readonly));
    args
}

impl AttachFlow {
    /// What every attachment keeps: it has not been repeated more often than allowed.
    pub open spec fn wf(self) -> bool {
        self.retries <= MAX_RETRIES
    }

    /// The workflow reserves a device.
    pub open spec fn reserves<H>(
        pre: AttachFlow,
        post: AttachFlow,
        step: Step<AttachAction, LoopDevice<H>, StorageError>,
    ) -> bool {
        &&& post == AttachFlow { phase: AttachPhase::NextFree, ..pre }
        &&& step matches Step::Do(AttachAction::NextFree)
    }

    /// The workflow ends with an error of the operating system.
    pub open spec fn fails<H>(
        pre: AttachFlow,
        error: OsError,
        post: AttachFlow,
        step: Step<AttachAction, LoopDevice<H>, StorageError>,
    ) -> bool {
        &&& post.phase == AttachPhase::Finished
        &&& post.file == pre.file
        &&& post.readonly == pre.readonly
        &&& post.retries == pre.retries
        &&& step matches Step::Return(Err(StorageError::Io(e))) && e.code == error.code
            && e.message@ == error.message@
    }

    /// The native way failed: a refused permission leads to `losetup`, anything else is final.
    pub open spec fn falls_back<H>(
        pre: AttachFlow,
        error: OsError,
        post: AttachFlow,
        step: Step<AttachAction, LoopDevice<H>, StorageError>,
    ) -> bool {
        if error.code == Some(EACCES) {
            &&& post == AttachFlow { phase: AttachPhase::Losetup, error: error, ..pre }
            &&& step matches Step::Do(AttachAction::Losetup { args }) && texts(args)
                == losetup_args(pre.file@, pre.readonly)
        } else {
            Self::fails(pre, error, post, step)
        }
    }

    /// How the workflow answers an event.
    pub open spec fn transition<H>(
        pre: AttachFlow,
        event: AttachEvent<H>,
        post: AttachFlow,
        step: Step<AttachAction, LoopDevice<H>, StorageError>,
    ) -> bool {
        match (pre.phase, event) {
            (AttachPhase::Begin, AttachEvent::Start) => {
                &&& post == AttachFlow { phase: AttachPhase::Probe, ..pre }
                &&& step matches Step::Do(AttachAction::Probe { file }) && file@ == pre.file@
            },
            (AttachPhase::Probe, AttachEvent::Probed(present)) => {
                if present {
                    &&& post == AttachFlow { phase: AttachPhase::Open, ..pre }
                    &&& step matches Step::Do(AttachAction::Open { file, write }) && file@
                        == pre.file@ && write == !pre.readonly
                } else {
                    &&& post == AttachFlow { phase: AttachPhase::Finished, ..pre }
                    &&& step matches Step::Return(Err(StorageError::NotFound(m))) && m@
                        == "File not found: "@ + path_debug(pre.file@)
                }
            },
            (AttachPhase::Open, AttachEvent::Opened(_)) => Self::reserves(pre, post, step),
            (AttachPhase::NextFree, AttachEvent::Free(result)) => match result {
                Ok(_) => {
                    &&& post == AttachFlow { phase: AttachPhase::Attach, ..pre }
                    &&& step matches Step::Do(AttachAction::Attach { file, readonly }) && file@
                        == pre.file@ && readonly == pre.readonly
                },
                Err(e) => Self::falls_back(pre, e, post, step),
            },
            (AttachPhase::Attach, AttachEvent::Attached(result)) => match result {
                Ok((path, handle)) => {
                    &&& post == AttachFlow { phase: AttachPhase::Finished, ..pre }
                    &&& step matches Step::Return(Ok(device)) && device.path == path
                        && device.device == Some(handle)
                },
                Err(e) => Self::falls_back(pre, e, post, step),
            },
            (AttachPhase::Losetup, AttachEvent::Losetup(result)) => match result {
                Ok((success, printed)) => {
                    if success {
                        &&& post == AttachFlow { phase: AttachPhase::Finished, ..pre }
                        &&& step matches Step::Return(Ok(device)) && device.path@ == trimmed(
                            printed@,
                        ) && device.device is None
                    } else if pre.retries < MAX_RETRIES {
                        &&& post == AttachFlow {
                            phase: AttachPhase::Pause,
                            retries: (pre.retries + 1) as u32,
                            ..pre
                        }
                        &&& step matches Step::Do(AttachAction::Pause { millis }) && millis
                            == RETRY_PAUSE
                    } else {
                        Self::fails(pre, pre.error, post, step)
                    }
                },
                Err(_) => Self::fails(pre, pre.error, post, step),
            },
            (AttachPhase::Pause, AttachEvent::Paused) => Self::reserves(pre, post, step),
            _ => post == pre && step is Unexpected,
        }
    }

    /// Takes the error that is kept, and ends the workflow with it.
    fn give_up<H>(&mut self) -> (r: Step<AttachAction, LoopDevice<H>, StorageError>)
        ensures
            Self::fails(*old(self), old(self).error, *final(self), r),
    {
        self.phase = AttachPhase::Finished;
        Step::Return(
            Err(
                StorageError::Io(
                    OsError { code: self.error.code, message: self.error.message.clone() },
                ),
            ),
        )
    }

    /// Goes on after the native way has failed.
    fn fall_back<H>(&mut self, error: OsError) -> (r: Step<
        AttachAction,
        LoopDevice<H>,
        StorageError,
    >)
        ensures
            Self::falls_back(*old(self), error, *final(self), r),
    {
        let refused = match error.code {
            Some(code) => code == EACCES,
            None => false,
        };
        if refused {
            self.error = error;
            self.phase = AttachPhase::Losetup;
            Step::Do(
                AttachAction::Losetup { args: losetup_arguments(self.file.as_str(), self.readonly) },
            )
        } else {
            self.phase = AttachPhase::Finished;
            Step::Return(Err(StorageError::Io(error)))
        }
    }

    /// Takes the outcome of the last action and says what to do next.
    pub fn step<H>(&mut self, event: AttachEvent<H>) -> (r: Step<
        AttachAction,
        LoopDevice<H>,
        StorageError,
    >)
        ensures
            Self::transition(*old(self), event, *final(self), r),
            old(self).wf() ==> final(self).wf(),
    {
        match (self.phase, event) {
            (AttachPhase::Begin, AttachEvent::Start) => {
                self.phase = AttachPhase::Probe;
                Step::Do(AttachAction::Probe { file: self.file.clone() })
            },
            (AttachPhase::Probe, AttachEvent::Probed(present)) => {
                if present {
                    self.phase = AttachPhase::Open;
                    Step::Do(AttachAction::Open { file: self.file.clone(), write: !self.readonly })
                } else {
                    self.phase = AttachPhase::Finished;
                    let shown = debug_path(self.file.as_str());
                    Step::Return(
                        Err(StorageError::NotFound(concat2("File not found: ", shown.as_str()))),
                    )
                }
            },
            (AttachPhase::Open, AttachEvent::Opened(_)) => {
                self.phase = AttachPhase::NextFree;
                Step::Do(AttachAction::NextFree)
            },
            (AttachPhase::NextFree, AttachEvent::Free(result)) => match result {
                Ok(_) => {
                    self.phase = AttachPhase::Attach;
                    Step::Do(
                        AttachAction::Attach { file: self.file.clone(), readonly: self.readonly },
                    )
                },
                Err(e) => self.fall_back(e),
            },
            (AttachPhase::Attach, AttachEvent::Attached(result)) => match result {
                Ok((path, handle)) => {
                    self.phase = AttachPhase::Finished;
                    Step::Return(Ok(LoopDevice::new(path, Some(handle))))
                },
                Err(e) => self.fall_back(e),
            },
            (AttachPhase::Losetup, AttachEvent::Losetup(result)) => match result {
                Ok((success, printed)) => {
                    if success {
                        self.phase = AttachPhase::Finished;
                        Step::Return(Ok(LoopDevice::new(trim(printed.as_str()), None)))
                    } else if self.retries < MAX_RETRIES {
                        self.phase = AttachPhase::Pause;
                        self.retries = self.retries + 1;
                        Step::Do(AttachAction::Pause { millis: RETRY_PAUSE })
                    } else {
                        self.give_up()
                    }
                },
                Err(_) => self.give_up(),
            },
            (AttachPhase::Pause, AttachEvent::Paused) => {
                self.phase = AttachPhase::NextFree;
                Step::Do(AttachAction::NextFree)
            },
            _ => Step::Unexpected,
        }
    }
}

/// How far a detachment has come.
#[derive(Clone, Copy, PartialEq, Eq, Structural)]
pub enum DetachPhase {
    Begin,
    Native,
    Inspect,
    Open,
    Opened,
    Finished,
}

/// What a detachment asks for.
pub enum DetachAction {
    /// Detach through the handle of the device.
    Detach,
    /// Find out what is at the path.
    Inspect { path: String },
    /// Open the loop device at the path.
    Open { path: String },
    /// Detach the device that was opened.
    DetachOpened,
}

/// What happened to the last action of a detachment.
pub enum DetachEvent {
    Start,
    Done(Result<(), OsError>),
    /// Whether the path is a block device; `None` if there is nothing at it.
    Inspected(Option<bool>),
    Opened(bool),
}

/// Workflow that detaches a loop device.
pub struct DetachFlow {
    pub path: String,
    /// Whether the device has a handle.
    pub native: bool,
    pub phase: DetachPhase,
}

impl DetachFlow {
    /// The workflow ends without an error.
    pub open spec fn succeeds(
        pre: DetachFlow,
        post: DetachFlow,
        step: Step<DetachAction, (), StorageError>,
    ) -> bool {
        &&& post == DetachFlow { phase: DetachPhase::Finished, ..pre }
        &&& step matches Step::Return(Ok(_))
    }

    /// How the workflow answers an event.
    pub open spec fn transition(
        pre: DetachFlow,
        event: DetachEvent,
        post: DetachFlow,
        step: Step<DetachAction, (), StorageError>,
    ) -> bool {
        match (pre.phase, event) {
            (DetachPhase::Begin, DetachEvent::Start) => {
                if pre.native {
                    &&& post == DetachFlow { phase: DetachPhase::Native, ..pre }
                    &&& step matches Step::Do(DetachAction::Detach)
                } else {
                    &&& post == DetachFlow { phase: DetachPhase::Inspect, ..pre }
                    &&& step matches Step::Do(DetachAction::Inspect { path }) && path@ == pre.path@
                }
            },
            (DetachPhase::Native, DetachEvent::Done(result)) => match result {
                Ok(_) => Self::succeeds(pre, post, step),
                Err(e) => {
                    &&& post == DetachFlow { phase: DetachPhase::Finished, ..pre }
                    &&& step == Step::<DetachAction, (), StorageError>::Return(
                        Err(StorageError::Io(e)),
                    )
                },
            },
            (DetachPhase::Inspect, DetachEvent::Inspected(found)) => {
                if found == Some(true) {
                    &&& post == DetachFlow { phase: DetachPhase::Open, ..pre }
                    &&& step matches Step::Do(DetachAction::Open { path }) && path@ == pre.path@
                } else {
                    Self::succeeds(pre, post, step)
                }
            },
            (DetachPhase::Open, DetachEvent::Opened(opened)) => {
                if opened {
                    &&& post == DetachFlow { phase: DetachPhase::Opened, ..pre }
                    &&& step matches Step::Do(DetachAction::DetachOpened)
                } else {
                    Self::succeeds(pre, post, step)
                }
            },
            (DetachPhase::Opened, DetachEvent::Done(_)) => Self::succeeds(pre, post, step),
            _ => post == pre && step is Unexpected,
        }
    }

    /// Takes the outcome of the last action and says what to do next.
    ///
    /// A device with a handle is detached through it. One without is opened by its path, and
    /// whatever stands in the way of that means that there is nothing left to detach.
    pub fn step(&mut self, event: DetachEvent) -> (r: Step<DetachAction, (), StorageError>)
        ensures
            Self::transition(*old(self), event, *final(self), r),
    {
        match (self.phase, event) {
            (DetachPhase::Begin, DetachEvent::Start) => {
                if self.native {
                    self.phase = DetachPhase::Native;
                    Step::Do(DetachAction::Detach)
                } else {
                    self.phase = DetachPhase::Inspect;
                    Step::Do(DetachAction::Inspect { path: self.path.clone() })
                }
            },
            (DetachPhase::Native, DetachEvent::Done(result)) => {
                self.phase = DetachPhase::Finished;
                match result {
                    Ok(_) => Step::Return(Ok(())),
                    Err(e) => Step::Return(Err(StorageError::Io(e))),
                }
            },
            (DetachPhase::Inspect, DetachEvent::Inspected(found)) => {
                let block = match found {
                    Some(block) => block,
                    None => false,
                };
                if block {
                    self.phase = DetachPhase::Open;
                    Step::Do(DetachAction::Open { path: self.path.clone() })
                } else {
                    self.phase = DetachPhase::Finished;
                    Step::Return(Ok(()))
                }
            },
            (DetachPhase::Open, DetachEvent::Opened(opened)) => {
                if opened {
                    self.phase = DetachPhase::Opened;
                    Step::Do(DetachAction::DetachOpened)
                } else {
                    self.phase = DetachPhase::Finished;
                    Step::Return(Ok(()))
                }
            },
            (DetachPhase::Opened, DetachEvent::Done(_)) => {
                self.phase = DetachPhase::Finished;
                Step::Return(Ok(()))
            },
            _ => Step::Unexpected,
        }
    }
}

/// How far the creation of a copy-on-write file has come.
#[derive(Clone, Copy, PartialEq, Eq, Structural)]
pub enum CowPhase {
    Begin,
    Parent,
    Create,
    Resize,
    Finished,
}

/// What the creation of a copy-on-write file asks for.
pub enum CowAction {
    /// Create the directory and its parents.
    CreateDir { path: String },
    /// Create an empty file.
    CreateFile { path: String },
    /// Give the file its length.
    SetLength { bytes: u64 },
}

/// What happened to the last action of the creation.
pub enum CowEvent {
    Start,
    Done(Result<(), OsError>),
}

/// Workflow that creates a sparse file for copy-on-write data.
pub struct CowFlow {
    pub path: String,
    pub bytes: u64,
    pub phase: CowPhase,
}

impl CowFlow {
    /// The workflow creates the file.
    pub open spec fn creates(
        pre: CowFlow,
        post: CowFlow,
        step: Step<CowAction, (), StorageError>,
    ) -> bool {
        &&& post == CowFlow { phase: CowPhase::Create, ..pre }
        &&& step matches Step::Do(CowAction::CreateFile { path }) && path@ == pre.path@
    }

    /// How the workflow answers an event.
    pub open spec fn transition(
        pre: CowFlow,
        event: CowEvent,
        post: CowFlow,
        step: Step<CowAction, (), StorageError>,
    ) -> bool {
        match (pre.phase, event) {
            (CowPhase::Begin, CowEvent::Start) => match path_parent(pre.path@) {
                Some(parent) => {
                    &&& post == CowFlow { phase: CowPhase::Parent, ..pre }
                    &&& step matches Step::Do(CowAction::CreateDir { path }) && path@ == parent
                },
                None => Self::creates(pre, post, step),
            },
            (CowPhase::Parent, CowEvent::Done(Ok(_))) => Self::creates(pre, post, step),
            (CowPhase::Create, CowEvent::Done(Ok(_))) => {
                &&& post == CowFlow { phase: CowPhase::Resize, ..pre }
                &&& step matches Step::Do(CowAction::SetLength { bytes }) && bytes == pre.bytes
            },
            (CowPhase::Resize, CowEvent::Done(Ok(_))) => {
                &&& post == CowFlow { phase: CowPhase::Finished, ..pre }
                &&& step matches Step::Return(Ok(_))
            },
            (CowPhase::Parent | CowPhase::Create | CowPhase::Resize, CowEvent::Done(Err(e))) => {
                &&& post == CowFlow { phase: CowPhase::Finished, ..pre }
                &&& step == Step::<CowAction, (), StorageError>::Return(Err(StorageError::Io(e)))
            },
            _ => post == pre && step is Unexpected,
        }
    }

    /// Takes the outcome of the last action and says what to do next. The first error ends the
    /// workflow.
    pub fn step(&mut self, event: CowEvent) -> (r: Step<CowAction, (), StorageError>)
        ensures
            Self::transition(*old(self), event, *final(self), r),
    {
        match (self.phase, event) {
            (CowPhase::Begin, CowEvent::Start) => match parent_of(self.path.as_str()) {
                Some(parent) => {
                    self.phase = CowPhase::Parent;
                    Step::Do(CowAction::CreateDir { path: parent })
                },
                None => {
                    self.phase = CowPhase::Create;
                    Step::Do(CowAction::CreateFile { path: self.path.clone() })
                },
            },
            (CowPhase::Parent, CowEvent::Done(Ok(_))) => {
                self.phase = CowPhase::Create;
                Step::Do(CowAction::CreateFile { path: self.path.clone() })
            },
            (CowPhase::Create, CowEvent::Done(Ok(_))) => {
                self.phase = CowPhase::Resize;
                Step::Do(CowAction::SetLength { bytes: self.bytes })
            },
            (CowPhase::Resize, CowEvent::Done(Ok(_))) => {
                self.phase = CowPhase::Finished;
                Step::Return(Ok(()))
            },
            (CowPhase::Parent, CowEvent::Done(Err(e)))
            | (CowPhase::Create, CowEvent::Done(Err(e)))
            | (CowPhase::Resize, CowEvent::Done(Err(e))) => {
                self.phase = CowPhase::Finished;
                Step::Return(Err(StorageError::Io(e)))
            },
            _ => Step::Unexpected,
        }
    }
}

impl<C> LoopManager<C> {
    /// The control device of the manager.
    pub closed spec fn control_device(&self) -> C {
        self.control
    }

    /// A manager for the control device, if it could be opened.
    pub fn new(control: Result<C, OsError>) -> (r: Result<LoopManager<C>, StorageError>)
        ensures
            match control {
                Ok(c) => r matches Ok(manager) && manager.control_device() == c,
                Err(e) => r == Err::<LoopManager<C>, StorageError>(StorageError::Io(e)),
            },
    {
        match control {
            Ok(control) => Ok(LoopManager { control }),
            Err(e) => Err(StorageError::Io(e)),
        }
    }

    /// The control device of the manager.
    pub fn control(&self) -> (r: &C)
        ensures
            *r == self.control_device(),
    {
        &self.control
    }

    /// Begins to attach a file for reading and writing.
    pub fn attach(&self, file: &str) -> (r: AttachFlow)
        ensures
            r.wf(),
            r.file@ == file@,
            !r.readonly,
            r.retries == 0,
            r.phase == AttachPhase::Begin,
    {
        self.attach_internal(file, false)
    }

    /// Begins to attach a file for reading only.
    pub fn attach_readonly(&self, file: &str) -> (r: AttachFlow)
        ensures
            r.wf(),
            r.file@ == file@,
            r.readonly,
            r.retries == 0,
            r.phase == AttachPhase::Begin,
    {
        self.attach_internal(file, true)
    }

    fn attach_internal(&self, file: &str, readonly: bool) -> (r: AttachFlow)
        ensures
            r.wf(),
            r.file@ == file@,
            r.readonly == readonly,
            r.retries == 0,
            r.phase == AttachPhase::Begin,
    {
        AttachFlow {
            file: owned(file),
            readonly,
            retries: 0,
            error: OsError { code: None, message: String::new() },
            phase: AttachPhase::Begin,
        }
    }

    /// Begins to detach a device.
    pub fn detach<H>(&self, device: &LoopDevice<H>) -> (r: DetachFlow)
        ensures
            r.path@ == device.path@,
            r.native == device.device is Some,
            r.phase == DetachPhase::Begin,
    {
        let native = match &device.device {
            Some(_) => true,
            None => false,
        };
        DetachFlow { path: device.path.clone(), native, phase: DetachPhase::Begin }
    }

    /// Begins to create a copy-on-write file of `size_mb` mebibytes.
    pub fn create_cow_file(path: &str, size_mb: u64) -> (r: CowFlow)
        requires
            size_mb * MEBIBYTE <= u64::MAX,
        ensures
            r.path@ == path@,
            r.bytes == size_mb * MEBIBYTE,
            r.phase == CowPhase::Begin,
    {
        CowFlow { path: owned(path), bytes: size_mb * MEBIBYTE, phase: CowPhase::Begin }
    }

    /// The size of a file, from its metadata.
    pub fn get_size(metadata: Result<u64, OsError>) -> (r: Result<u64, StorageError>)
        ensures
            match metadata {
                Ok(size) => r == Ok::<u64, StorageError>(size),
                Err(e) => r == Err::<u64, StorageError>(StorageError::Io(e)),
            },
    {
        match metadata {
            Ok(size) => Ok(size),
            Err(e) => Err(StorageError::Io(e)),
        }
    }

    /// Whether a device counts as attached: its path is `present`.
    pub fn is_attached<H>(&self, device: &LoopDevice<H>, present: bool) -> (r: Result<
        bool,
        StorageError,
    >)
        ensures
            r == Ok::<bool, StorageError>(present),
    {
        Ok(present)
    }

    /// The devices that the manager keeps track of: none.
    pub fn list_devices<H>(&self) -> (r: Result<Vec<LoopDevice<H>>, StorageError>)
        ensures
            r matches Ok(devices) && devices@.len() == 0,
    {
        Ok(Vec::new())
    }
}

/// The answer of an attachment to an event.
pub type AttachStep<H> = Step<AttachAction, LoopDevice<H>, StorageError>;

/// The steps of an attachment.
pub open spec fn attach_next<H>() -> spec_fn(
    AttachFlow,
    AttachEvent<H>,
    AttachFlow,
    AttachStep<H>,
) -> bool {
    |pre: AttachFlow, event: AttachEvent<H>, post: AttachFlow, step: AttachStep<H>|
        AttachFlow::transition(pre, event, post, step)
}

/// A run of an attachment from its beginning.
pub open spec fn attach_run<H>(
    states: Seq<AttachFlow>,
    events: Seq<AttachEvent<H>>,
    steps: Seq<AttachStep<H>>,
) -> bool {
    &&& is_run(attach_next::<H>(), states, events, steps)
    &&& states[0].phase == AttachPhase::Begin
    &&& states[0].retries == 0
}

/// How many of the answers reserve a device.
pub open spec fn attempts<H>(steps: Seq<AttachStep<H>>) -> nat
    decreases steps.len(),
{
    if steps.len() == 0 {
        0
    } else {
        attempts(steps.drop_last()) + if steps.last() matches Step::Do(AttachAction::NextFree) {
            1nat
        } else {
            0nat
        }
    }
}

/// The native way was refused for want of permission.
pub open spec fn refused<H>(flow: AttachFlow, event: AttachEvent<H>) -> bool {
    match (flow.phase, event) {
        (AttachPhase::NextFree, AttachEvent::Free(Err(e))) => e.code == Some(EACCES),
        (AttachPhase::Attach, AttachEvent::Attached(Err(e))) => e.code == Some(EACCES),
        _ => false,
    }
}

proof fn lemma_attempts<H>(
    states: Seq<AttachFlow>,
    events: Seq<AttachEvent<H>>,
    steps: Seq<AttachStep<H>>,
)
    requires
        attach_run(states, events, steps),
    ensures
        states.last().retries <= MAX_RETRIES,
        match states.last().phase {
            AttachPhase::Begin | AttachPhase::Probe | AttachPhase::Open => attempts(steps) == 0
                && states.last().retries == 0,
            AttachPhase::Pause => attempts(steps) == states.last().retries,
            AttachPhase::Finished => attempts(steps) <= states.last().retries + 1,
            _ => attempts(steps) == states.last().retries + 1,
        },
    decreases steps.len(),
{
    if steps.len() > 0 {
        lemma_shorter_run(attach_next::<H>(), states, events, steps);
        lemma_attempts(states.drop_last(), events.drop_last(), steps.drop_last());
    }
}

/// However often `losetup` fails, an attachment is tried a bounded number of times.
pub proof fn attach_attempts_are_bounded<H>(
    states: Seq<AttachFlow>,
    events: Seq<AttachEvent<H>>,
    steps: Seq<AttachStep<H>>,
)
    requires
        attach_run(states, events, steps),
    ensures
        attempts(steps) <= MAX_RETRIES + 1,
{
    lemma_attempts(states, events, steps);
}

proof fn lemma_refused<H>(
    states: Seq<AttachFlow>,
    events: Seq<AttachEvent<H>>,
    steps: Seq<AttachStep<H>>,
)
    requires
        attach_run(states, events, steps),
        states.last().phase == AttachPhase::Losetup,
    ensures
        exists|i: int| 0 <= i < events.len() && refused(states[i], #[trigger] events[i]),
    decreases steps.len(),
{
    if steps.len() > 0 {
        lemma_shorter_run(attach_next::<H>(), states, events, steps);
        let s = states.drop_last();
        let e = events.drop_last();
        if s.last().phase == AttachPhase::Losetup {
            lemma_refused(s, e, steps.drop_last());
            let i = choose|i: int| 0 <= i < e.len() && refused(s[i], #[trigger] e[i]);
            assert(refused(states[i], events[i]));
        } else {
            assert(refused(states[events.len() - 1], events[events.len() - 1]));
        }
    }
}

/// A device that was attached natively has a handle. One without was attached by `losetup`, which
/// is asked only after the native way was refused for want of permission.
pub proof fn losetup_only_after_refused_permission<H>(
    states: Seq<AttachFlow>,
    events: Seq<AttachEvent<H>>,
    steps: Seq<AttachStep<H>>,
    device: LoopDevice<H>,
)
    requires
        attach_run(states, events, steps),
        steps.len() > 0,
        steps.last() == AttachStep::<H>::Return(Ok(device)),
    ensures
        device.device is Some <==> events.last() is Attached,
        device.device is None ==> exists|i: int|
            0 <= i < events.len() && refused(states[i], #[trigger] events[i]),
{
    lemma_shorter_run(attach_next::<H>(), states, events, steps);
    let s = states.drop_last();
    let e = events.drop_last();
    if device.device is None {
        lemma_refused(s, e, steps.drop_last());
        let i = choose|i: int| 0 <= i < e.len() && refused(s[i], #[trigger] e[i]);
        assert(refused(states[i], events[i]));
    }
}

/// The answer of a detachment to an event.
pub type DetachStep = Step<DetachAction, (), StorageError>;

/// The steps of a detachment.
pub open spec fn detach_next() -> spec_fn(DetachFlow, DetachEvent, DetachFlow, DetachStep) -> bool {
    |pre: DetachFlow, event: DetachEvent, post: DetachFlow, step: DetachStep|
        DetachFlow::transition(pre, event, post, step)
}

proof fn lemma_detach_by_path(
    states: Seq<DetachFlow>,
    events: Seq<DetachEvent>,
    steps: Seq<DetachStep>,
)
    requires
        is_run(detach_next(), states, events, steps),
        states[0].phase == DetachPhase::Begin,
        !states[0].native,
    ensures
        !states.last().native,
        states.last().phase != DetachPhase::Native,
        forall|i: int| 0 <= i < steps.len() ==> !(#[trigger] steps[i] matches Step::Return(Err(_))),
    decreases steps.len(),
{
    if steps.len() > 0 {
        lemma_shorter_run(detach_next(), states, events, steps);
        let t = steps.drop_last();
        lemma_detach_by_path(states.drop_last(), events.drop_last(), t);
        assert forall|i: int| 0 <= i < steps.len() implies !(
        #[trigger] steps[i] matches Step::Return(Err(_))) by {
            if i < t.len() {
                assert(steps[i] == t[i]);
            }
        }
    }
}

/// Detaching a device that has no handle never fails, whatever is at its path.
pub proof fn detach_by_path_never_fails(
    states: Seq<DetachFlow>,
    events: Seq<DetachEvent>,
    steps: Seq<DetachStep>,
)
    requires
        is_run(detach_next(), states, events, steps),
        states[0].phase == DetachPhase::Begin,
        !states[0].native,
    ensures
        forall|i: int| 0 <= i < steps.len() ==> !(#[trigger] steps[i] matches Step::Return(Err(_))),
{
    lemma_detach_by_path(states, events, steps);
}

} // verus!
