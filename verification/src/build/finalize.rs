//! Making an image of a root file system.
use std::collections::HashMap;
use vstd::prelude::*;
use crate::build::error::{fail, fail_plain, failed, BuildError, ErrorKind};
use crate::build::runner::{image_dir, image_rootfs, BuildRunner};
use crate::flow::{is_run, lemma_shorter_run, Step};
use crate::image::OciImageConfig;
use crate::path::{join_path, joined_path};
use crate::text::{concat2, owned};

verus! {

/// The architecture of the images that are built.
pub const ARCHITECTURE: &'static str = "amd64";

/// A finished image.
pub struct BuildResult {
    pub image_name: String,
    pub rootfs_path: String,
    pub manifest_path: String,
    pub config: OciImageConfig,
    /// The registers that the boot of the image was measured into.
    pub pcr_policy: Option<HashMap<u32, String>>,
    pub manifest_signed: bool,
}

/// What the manifest of an image says.
pub struct Manifest {
    pub architecture: String,
    /// The digest of the root file system.
    pub digest: String,
    pub config: OciImageConfig,
    /// The size of the root file system in bytes.
    pub size: u64,
    pub pcr_policy: Option<HashMap<u32, String>>,
}

/// The registers and what they hold.
pub open spec fn registers(pcrs: HashMap<u32, String>) -> Map<u32, Seq<char>> {
    pcrs@.map_values(|value: String| value@)
}

/// The registers and what they hold, if there are any.
pub open spec fn policy(pcrs: Option<HashMap<u32, String>>) -> Option<Map<u32, Seq<char>>> {
    match pcrs {
        Some(values) => Some(registers(values)),
        None => None,
    }
}

/// A copy of a policy.
pub fn copy_policy(pcrs: &Option<HashMap<u32, String>>) -> (r: Option<HashMap<u32, String>>)
    ensures
        policy(r) == policy(*pcrs),
{
    match pcrs {
        Some(values) => Some(values.clone()),
        None => None,
    }
}

/// How far the making of an image has come.
#[derive(Clone, Copy, PartialEq, Eq, Structural)]
pub enum FinalizePhase {
    Begin,
    CreateDir,
    CopyRootfs,
    Hash,
    Measure,
    Size,
    Encode,
    WriteManifest,
    FindKey,
    Sign,
    SaveSignature,
    Finished,
}

/// What the making of an image asks for.
pub enum FinalizeAction<K> {
    /// Create the directory and its parents.
    CreateDir { path: String },
    /// Copy a file.
    Copy { from: String, to: String },
    /// Compute the SHA-256 hash of a file.
    Hash { path: String },
    /// Measure the boot of a root file system.
    Measure { rootfs: String },
    /// Find out the size of a file.
    Size { path: String },
    /// Write a manifest as text.
    Encode { manifest: Manifest },
    /// Write a text file.
    Write { path: String, content: String },
    /// Find the key that signs manifests.
    FindKey,
    /// Sign a manifest.
    Sign { manifest: Manifest, key: K },
    /// Save the signed manifest.
    SaveSigned { path: String },
}

/// What happened to the last action of the making of an image.
pub enum FinalizeEvent<K> {
    Start,
    Done(Result<(), String>),
    Hashed(Result<String, String>),
    Measured(Result<HashMap<u32, String>, BuildError>),
    Sized(Result<u64, String>),
    Encoded(Result<String, String>),
    Key(Result<Option<K>, BuildError>),
}

/// The answer of the making of an image to an event.
pub type FinalizeStep<K> = Step<FinalizeAction<K>, BuildResult, BuildError>;

/// Workflow that makes an image of a root file system.
pub struct FinalizeFlow {
    pub image_name: String,
    /// The root file system that the image is made of.
    pub source: String,
    pub output_dir: String,
    pub config: OciImageConfig,
    pub measured: bool,
    pub digest: String,
    pub pcrs: Option<HashMap<u32, String>>,
    pub size: u64,
    pub phase: FinalizePhase,
}

impl FinalizeFlow {
    /// The root file system of the image.
    pub open spec fn rootfs(self) -> Seq<char> {
        joined_path(self.output_dir@, "rootfs.sqfs"@)
    }

    /// The manifest of the image.
    pub open spec fn manifest_file(self) -> Seq<char> {
        joined_path(self.output_dir@, "vyoma.toml"@)
    }

    /// The signed manifest of the image.
    pub open spec fn signed_file(self) -> Seq<char> {
        joined_path(self.output_dir@, "vyoma.toml.sig"@)
    }

    /// The manifest says what the workflow has found out.
    pub open spec fn describes(self, manifest: Manifest) -> bool {
        &&& manifest.architecture@ == ARCHITECTURE@
        &&& manifest.digest@ == self.digest@
        &&& manifest.config@ == self.config@
        &&& manifest.size == self.size
        &&& policy(manifest.pcr_policy) == policy(self.pcrs)
    }

    /// The workflow ends with an error.
    pub open spec fn fails<K>(
        pre: FinalizeFlow,
        kind: ErrorKind,
        text: Seq<char>,
        post: FinalizeFlow,
        step: FinalizeStep<K>,
    ) -> bool {
        &&& post == FinalizeFlow { phase: FinalizePhase::Finished, ..pre }
        &&& failed(step, kind, text)
    }

    /// The workflow asks for the size of the root file system.
    pub open spec fn asks_size<K>(
        pre: FinalizeFlow,
        post: FinalizeFlow,
        step: FinalizeStep<K>,
    ) -> bool {
        &&& post == FinalizeFlow { phase: FinalizePhase::Size, ..pre }
        &&& step matches Step::Do(FinalizeAction::Size { path }) && path@ == pre.rootfs()
    }

    /// The workflow returns the image.
    pub open spec fn completes<K>(
        pre: FinalizeFlow,
        signed: bool,
        post: FinalizeFlow,
        step: FinalizeStep<K>,
    ) -> bool {
        &&& post == FinalizeFlow { phase: FinalizePhase::Finished, ..pre }
        &&& step matches Step::Return(Ok(result)) && result.image_name@ == pre.image_name@
            && result.rootfs_path@ == pre.rootfs() && result.manifest_path@ == pre.manifest_file()
            && result.config@ == pre.config@ && policy(result.pcr_policy) == policy(pre.pcrs)
            && result.manifest_signed == signed
    }

    /// How the workflow answers an event.
    pub open spec fn transition<K>(
        pre: FinalizeFlow,
        event: FinalizeEvent<K>,
        post: FinalizeFlow,
        step: FinalizeStep<K>,
    ) -> bool {
        match (pre.phase, event) {
            (FinalizePhase::Begin, FinalizeEvent::Start) => {
                &&& post == FinalizeFlow { phase: FinalizePhase::CreateDir, ..pre }
                &&& step matches Step::Do(FinalizeAction::CreateDir { path }) && path@
                    == pre.output_dir@
            },
            (FinalizePhase::CreateDir, FinalizeEvent::Done(Err(e))) => Self::fails(
                pre,
                ErrorKind::Io,
                e@,
                post,
                step,
            ),
            (FinalizePhase::CreateDir, FinalizeEvent::Done(Ok(_))) => {
                &&& post == FinalizeFlow { phase: FinalizePhase::CopyRootfs, ..pre }
                &&& step matches Step::Do(FinalizeAction::Copy { from, to }) && from@ == pre.source@
                    && to@ == pre.rootfs()
            },
            (FinalizePhase::CopyRootfs, FinalizeEvent::Done(Err(e))) => Self::fails(
                pre,
                ErrorKind::Io,
                e@,
                post,
                step,
            ),
            (FinalizePhase::CopyRootfs, FinalizeEvent::Done(Ok(_))) => {
                &&& post == FinalizeFlow { phase: FinalizePhase::Hash, ..pre }
                &&& step matches Step::Do(FinalizeAction::Hash { path }) && path@ == pre.rootfs()
            },
            (FinalizePhase::Hash, FinalizeEvent::Hashed(Err(e))) => Self::fails(
                pre,
                ErrorKind::Execution,
                "Failed to compute hash: "@ + e@,
                post,
                step,
            ),
            (FinalizePhase::Hash, FinalizeEvent::Hashed(Ok(hash))) => {
                &&& post.digest@ == "sha256:"@ + hash@
                &&& if pre.measured {
                    &&& post == FinalizeFlow {
                        digest: post.digest,
                        phase: FinalizePhase::Measure,
                        ..pre
                    }
                    &&& step matches Step::Do(FinalizeAction::Measure { rootfs }) && rootfs@
                        == pre.rootfs()
                } else {
                    Self::asks_size(FinalizeFlow { digest: post.digest, ..pre }, post, step)
                }
            },
            (FinalizePhase::Measure, FinalizeEvent::Measured(Err(e))) => {
                &&& post == FinalizeFlow { phase: FinalizePhase::Finished, ..pre }
                &&& step == FinalizeStep::<K>::Return(Err(e))
            },
            (FinalizePhase::Measure, FinalizeEvent::Measured(Ok(pcrs))) => Self::asks_size(
                FinalizeFlow { pcrs: Some(pcrs), ..pre },
                post,
                step,
            ),
            (FinalizePhase::Size, FinalizeEvent::Sized(Err(e))) => Self::fails(
                pre,
                ErrorKind::Io,
                e@,
                post,
                step,
            ),
            (FinalizePhase::Size, FinalizeEvent::Sized(Ok(size))) => {
                &&& post == FinalizeFlow { size, phase: FinalizePhase::Encode, ..pre }
                &&& step matches Step::Do(FinalizeAction::Encode { manifest }) && post.describes(
                    manifest,
                )
            },
            (FinalizePhase::Encode, FinalizeEvent::Encoded(Err(e))) => Self::fails(
                pre,
                ErrorKind::Execution,
                e@,
                post,
                step,
            ),
            (FinalizePhase::Encode, FinalizeEvent::Encoded(Ok(text))) => {
                &&& post == FinalizeFlow { phase: FinalizePhase::WriteManifest, ..pre }
                &&& step matches Step::Do(FinalizeAction::Write { path, content }) && path@
                    == pre.manifest_file() && content == text
            },
            (FinalizePhase::WriteManifest, FinalizeEvent::Done(Err(e))) => Self::fails(
                pre,
                ErrorKind::Io,
                e@,
                post,
                step,
            ),
            (FinalizePhase::WriteManifest, FinalizeEvent::Done(Ok(_))) => {
                &&& post == FinalizeFlow { phase: FinalizePhase::FindKey, ..pre }
                &&& step matches Step::Do(FinalizeAction::FindKey)
            },
            (FinalizePhase::FindKey, FinalizeEvent::Key(Err(e))) => {
                &&& post == FinalizeFlow { phase: FinalizePhase::Finished, ..pre }
                &&& step == FinalizeStep::<K>::Return(Err(e))
            },
            (FinalizePhase::FindKey, FinalizeEvent::Key(Ok(None))) => {
                if pre.measured {
                    Self::fails(
                        pre,
                        ErrorKind::Execution,
                        "Measured build requested but no signing key available"@,
                        post,
                        step,
                    )
                } else {
                    Self::completes(pre, false, post, step)
                }
            },
            (FinalizePhase::FindKey, FinalizeEvent::Key(Ok(Some(k)))) => {
                &&& post == FinalizeFlow { phase: FinalizePhase::Sign, ..pre }
                &&& step matches Step::Do(FinalizeAction::Sign { manifest, key }) && key == k
                    && pre.describes(manifest)
            },
            (FinalizePhase::Sign, FinalizeEvent::Done(Err(e))) => Self::fails(
                pre,
                ErrorKind::Execution,
                "Failed to sign manifest: "@ + e@,
                post,
                step,
            ),
            (FinalizePhase::Sign, FinalizeEvent::Done(Ok(_))) => {
                &&& post == FinalizeFlow { phase: FinalizePhase::SaveSignature, ..pre }
                &&& step matches Step::Do(FinalizeAction::SaveSigned { path }) && path@
                    == pre.signed_file()
            },
            (FinalizePhase::SaveSignature, FinalizeEvent::Done(Err(e))) => Self::fails(
                pre,
                ErrorKind::Execution,
                "Failed to save signed manifest: "@ + e@,
                post,
                step,
            ),
            (FinalizePhase::SaveSignature, FinalizeEvent::Done(Ok(_))) => Self::completes(
                pre,
                true,
                post,
                step,
            ),
            _ => post == pre && step is Unexpected,
        }
    }

    fn rootfs_path(&self) -> (r: String)
        ensures
            r@ == self.rootfs(),
    {
        join_path(self.output_dir.as_str(), "rootfs.sqfs")
    }

    fn manifest_path(&self) -> (r: String)
        ensures
            r@ == self.manifest_file(),
    {
        join_path(self.output_dir.as_str(), "vyoma.toml")
    }

    fn manifest(&self) -> (r: Manifest)
        ensures
            self.describes(r),
    {
        Manifest {
            architecture: owned(ARCHITECTURE),
            digest: self.digest.clone(),
            config: self.config.duplicate(),
            size: self.size,
            pcr_policy: copy_policy(&self.pcrs),
        }
    }

    fn give_up<K>(&mut self, kind: ErrorKind, prefix: &str, detail: &str) -> (r: FinalizeStep<K>)
        ensures
            Self::fails(*old(self), kind, prefix@ + detail@, *final(self), r),
    {
        self.phase = FinalizePhase::Finished;
        fail(kind, prefix, detail)
    }

    fn give_up_plain<K>(&mut self, kind: ErrorKind, text: &str) -> (r: FinalizeStep<K>)
        ensures
            Self::fails(*old(self), kind, text@, *final(self), r),
    {
        self.phase = FinalizePhase::Finished;
        fail_plain(kind, text)
    }

    fn ask_size<K>(&mut self) -> (r: FinalizeStep<K>)
        ensures
            Self::asks_size(*old(self), *final(self), r),
    {
        self.phase = FinalizePhase::Size;
        Step::Do(FinalizeAction::Size { path: self.rootfs_path() })
    }

    fn complete<K>(&mut self, signed: bool) -> (r: FinalizeStep<K>)
        ensures
            Self::completes(*old(self), signed, *final(self), r),
    {
        self.phase = FinalizePhase::Finished;
        Step::Return(
            Ok(
                BuildResult {
                    image_name: self.image_name.clone(),
                    rootfs_path: self.rootfs_path(),
                    manifest_path: self.manifest_path(),
                    config: self.config.duplicate(),
                    pcr_policy: copy_policy(&self.pcrs),
                    manifest_signed: signed,
                },
            ),
        )
    }

    /// Takes the outcome of the last action and says what to do next. A measured image that cannot
    /// be signed is an error.
    pub fn step<K>(&mut self, event: FinalizeEvent<K>) -> (r: FinalizeStep<K>)
        ensures
            Self::transition(*old(self), event, *final(self), r),
    {
        match (self.phase, event) {
            (FinalizePhase::Begin, FinalizeEvent::Start) => {
                self.phase = FinalizePhase::CreateDir;
                Step::Do(FinalizeAction::CreateDir { path: self.output_dir.clone() })
            },
            (FinalizePhase::CreateDir, FinalizeEvent::Done(Err(e))) => self.give_up_plain(
                ErrorKind::Io,
                e.as_str(),
            ),
            (FinalizePhase::CreateDir, FinalizeEvent::Done(Ok(_))) => {
                self.phase = FinalizePhase::CopyRootfs;
                Step::Do(
                    FinalizeAction::Copy { from: self.source.clone(), to: self.rootfs_path() },
                )
            },
            (FinalizePhase::CopyRootfs, FinalizeEvent::Done(Err(e))) => self.give_up_plain(
                ErrorKind::Io,
                e.as_str(),
            ),
            (FinalizePhase::CopyRootfs, FinalizeEvent::Done(Ok(_))) => {
                self.phase = FinalizePhase::Hash;
                Step::Do(FinalizeAction::Hash { path: self.rootfs_path() })
            },
            (FinalizePhase::Hash, FinalizeEvent::Hashed(Err(e))) => self.give_up(
                ErrorKind::Execution,
                "Failed to compute hash: ",
                e.as_str(),
            ),
            (FinalizePhase::Hash, FinalizeEvent::Hashed(Ok(hash))) => {
                self.digest = concat2("sha256:", hash.as_str());
                if self.measured {
                    self.phase = FinalizePhase::Measure;
                    Step::Do(FinalizeAction::Measure { rootfs: self.rootfs_path() })
                } else {
                    self.ask_size()
                }
            },
            (FinalizePhase::Measure, FinalizeEvent::Measured(Err(e))) => {
                self.phase = FinalizePhase::Finished;
                Step::Return(Err(e))
            },
            (FinalizePhase::Measure, FinalizeEvent::Measured(Ok(pcrs))) => {
                self.pcrs = Some(pcrs);
                self.ask_size()
            },
            (FinalizePhase::Size, FinalizeEvent::Sized(Err(e))) => self.give_up_plain(
                ErrorKind::Io,
                e.as_str(),
            ),
            (FinalizePhase::Size, FinalizeEvent::Sized(Ok(size))) => {
                self.size = size;
                self.phase = FinalizePhase::Encode;
                Step::Do(FinalizeAction::Encode { manifest: self.manifest() })
            },
            (FinalizePhase::Encode, FinalizeEvent::Encoded(Err(e))) => self.give_up_plain(
                ErrorKind::Execution,
                e.as_str(),
            ),
            (FinalizePhase::Encode, FinalizeEvent::Encoded(Ok(text))) => {
                self.phase = FinalizePhase::WriteManifest;
                Step::Do(FinalizeAction::Write { path: self.manifest_path(), content: text })
            },
            (FinalizePhase::WriteManifest, FinalizeEvent::Done(Err(e))) => self.give_up_plain(
                ErrorKind::Io,
                e.as_str(),
            ),
            (FinalizePhase::WriteManifest, FinalizeEvent::Done(Ok(_))) => {
                self.phase = FinalizePhase::FindKey;
                Step::Do(FinalizeAction::FindKey)
            },
            (FinalizePhase::FindKey, FinalizeEvent::Key(Err(e))) => {
                self.phase = FinalizePhase::Finished;
                Step::Return(Err(e))
            },
            (FinalizePhase::FindKey, FinalizeEvent::Key(Ok(None))) => {
                if self.measured {
                    self.give_up_plain(
                        ErrorKind::Execution,
                        "Measured build requested but no signing key available",
                    )
                } else {
                    self.complete(false)
                }
            },
            (FinalizePhase::FindKey, FinalizeEvent::Key(Ok(Some(key)))) => {
                self.phase = FinalizePhase::Sign;
                Step::Do(FinalizeAction::Sign { manifest: self.manifest(), key })
            },
            (FinalizePhase::Sign, FinalizeEvent::Done(Err(e))) => self.give_up(
                ErrorKind::Execution,
                "Failed to sign manifest: ",
                e.as_str(),
            ),
            (FinalizePhase::Sign, FinalizeEvent::Done(Ok(_))) => {
                self.phase = FinalizePhase::SaveSignature;
                Step::Do(
                    FinalizeAction::SaveSigned {
                        path: join_path(self.output_dir.as_str(), "vyoma.toml.sig"),
                    },
                )
            },
            (FinalizePhase::SaveSignature, FinalizeEvent::Done(Err(e))) => self.give_up(
                ErrorKind::Execution,
                "Failed to save signed manifest: ",
                e.as_str(),
            ),
            (FinalizePhase::SaveSignature, FinalizeEvent::Done(Ok(_))) => self.complete(true),
            _ => Step::Unexpected,
        }
    }
}

impl BuildRunner {
    /// Begins to make the image `image_name` of a root file system.
    pub fn finalize_image(
        &self,
        rootfs_path: &str,
        image_name: &str,
        config: &OciImageConfig,
    ) -> (r: FinalizeFlow)
        ensures
            r.image_name@ == image_name@,
            r.source@ == rootfs_path@,
            r.output_dir@ == image_dir(self.work_dir@, image_name@),
            r.config@ == config@,
            r.measured == self.measured,
            r.pcrs is None,
            r.phase == FinalizePhase::Begin,
    {
        FinalizeFlow {
            image_name: owned(image_name),
            source: owned(rootfs_path),
            output_dir: self.image_directory(image_name),
            config: config.duplicate(),
            measured: self.measured,
            digest: String::new(),
            pcrs: None,
            size: 0,
            phase: FinalizePhase::Begin,
        }
    }
}

/// The steps of the making of an image.
pub open spec fn finalize_next<K>() -> spec_fn(
    FinalizeFlow,
    FinalizeEvent<K>,
    FinalizeFlow,
    FinalizeStep<K>,
) -> bool {
    |pre: FinalizeFlow, event: FinalizeEvent<K>, post: FinalizeFlow, step: FinalizeStep<K>|
        FinalizeFlow::transition(pre, event, post, step)
}

/// The answer copies the file at `source` to `path`.
pub open spec fn copies<K>(step: FinalizeStep<K>, source: Seq<char>, path: Seq<char>) -> bool {
    step matches Step::Do(FinalizeAction::Copy { from, to }) && from@ == source && to@ == path
}

/// The manifest that the answer has written as text or signed.
pub open spec fn manifest_of<K>(step: FinalizeStep<K>) -> Option<Manifest> {
    match step {
        Step::Do(FinalizeAction::Encode { manifest }) => Some(manifest),
        Step::Do(FinalizeAction::Sign { manifest, .. }) => Some(manifest),
        _ => None,
    }
}

/// The answer has a manifest written as text.
pub open spec fn encodes<K>(step: FinalizeStep<K>) -> bool {
    step matches Step::Do(FinalizeAction::Encode { .. })
}

/// The answer has a manifest signed.
pub open spec fn signs<K>(step: FinalizeStep<K>) -> bool {
    step matches Step::Do(FinalizeAction::Sign { .. })
}

/// The hash was found, and this is the digest with it.
pub open spec fn hashed_to<K>(
    flow: FinalizeFlow,
    event: FinalizeEvent<K>,
    digest: Seq<char>,
) -> bool {
    flow.phase == FinalizePhase::Hash && (event matches FinalizeEvent::Hashed(Ok(hash)) && digest
        == "sha256:"@ + hash@)
}

/// The boot was measured into these registers.
pub open spec fn measured_to<K>(
    flow: FinalizeFlow,
    event: FinalizeEvent<K>,
    found: Option<Map<u32, Seq<char>>>,
) -> bool {
    flow.phase == FinalizePhase::Measure && (event matches FinalizeEvent::Measured(Ok(pcrs))
        && found == Some(registers(pcrs)))
}

/// A manifest came out as a text, and the answer writes that text to `file`.
pub open spec fn writes_manifest<K>(
    flow: FinalizeFlow,
    event: FinalizeEvent<K>,
    step: FinalizeStep<K>,
    file: Seq<char>,
) -> bool {
    flow.phase == FinalizePhase::Encode && (event matches FinalizeEvent::Encoded(Ok(text)) && (
    step matches Step::Do(FinalizeAction::Write { path, content }) && path@ == file && content
        == text))
}

/// The answer saves the signed manifest here.
pub open spec fn saves_signed<K>(step: FinalizeStep<K>, file: Seq<char>) -> bool {
    step matches Step::Do(FinalizeAction::SaveSigned { path }) && path@ == file
}

/// The size was found.
pub open spec fn sized_to<K>(flow: FinalizeFlow, event: FinalizeEvent<K>, size: u64) -> bool {
    flow.phase == FinalizePhase::Size && event == FinalizeEvent::<K>::Sized(Ok(size))
}

/// The phases from which an image can still be completed.
pub open spec fn after_copy(phase: FinalizePhase) -> bool {
    !(phase == FinalizePhase::Begin || phase == FinalizePhase::CreateDir || phase
        == FinalizePhase::Finished)
}

/// The phases that follow the hash.
pub open spec fn after_hash(phase: FinalizePhase) -> bool {
    after_copy(phase) && !(phase == FinalizePhase::CopyRootfs || phase == FinalizePhase::Hash)
}

/// The phases that follow the measurement.
pub open spec fn after_measurement(phase: FinalizePhase) -> bool {
    after_hash(phase) && phase != FinalizePhase::Measure
}

/// The phases that follow the question for the size.
pub open spec fn after_size(phase: FinalizePhase) -> bool {
    after_measurement(phase) && phase != FinalizePhase::Size
}

/// The phases that follow the text of the manifest.
pub open spec fn after_encode(phase: FinalizePhase) -> bool {
    after_size(phase) && phase != FinalizePhase::Encode
}

/// What a run from the beginning has done when it is in a phase from which it can be completed.
spec fn on_course<K>(
    states: Seq<FinalizeFlow>,
    events: Seq<FinalizeEvent<K>>,
    steps: Seq<FinalizeStep<K>>,
) -> bool {
    let flow = states.last();
    &&& after_copy(flow.phase) ==> exists|i: int|
        0 <= i < steps.len() && copies(
            #[trigger] steps[i],
            states[0].source@,
            states[0].rootfs(),
        )
    &&& after_hash(flow.phase) ==> exists|i: int|
        0 <= i < events.len() && hashed_to(states[i], #[trigger] events[i], flow.digest@)
    &&& after_measurement(flow.phase) && flow.measured ==> exists|i: int|
        0 <= i < events.len() && measured_to(states[i], #[trigger] events[i], policy(flow.pcrs))
    &&& after_size(flow.phase) ==> exists|i: int|
        0 <= i < events.len() && sized_to(states[i], #[trigger] events[i], flow.size)
    &&& after_size(flow.phase) ==> exists|i: int| 0 <= i < steps.len() && encodes(#[trigger] steps[i])
    &&& after_encode(flow.phase) ==> exists|i: int|
        0 <= i < steps.len() && writes_manifest(
            states[i],
            events[i],
            #[trigger] steps[i],
            states[0].manifest_file(),
        )
    &&& flow.phase == FinalizePhase::Sign || flow.phase == FinalizePhase::SaveSignature
        ==> exists|i: int| 0 <= i < steps.len() && signs(#[trigger] steps[i])
    &&& flow.phase == FinalizePhase::SaveSignature ==> exists|i: int|
        0 <= i < steps.len() && saves_signed(#[trigger] steps[i], states[0].signed_file())
}

proof fn lemma_finalize<K>(
    states: Seq<FinalizeFlow>,
    events: Seq<FinalizeEvent<K>>,
    steps: Seq<FinalizeStep<K>>,
)
    requires
        is_run(finalize_next::<K>(), states, events, steps),
        states[0].phase == FinalizePhase::Begin,
        states[0].pcrs is None,
    ensures
        ({
            let flow = states.last();
            &&& flow.image_name == states[0].image_name
            &&& flow.source == states[0].source
            &&& flow.output_dir == states[0].output_dir
            &&& flow.config == states[0].config
            &&& flow.measured == states[0].measured
            &&& flow.phase == FinalizePhase::Measure ==> flow.measured
            &&& after_measurement(flow.phase) ==> (flow.pcrs is Some <==> flow.measured)
            &&& (flow.phase != FinalizePhase::Finished && !after_measurement(flow.phase)
                ==> flow.pcrs is None)
        }),
    decreases steps.len(),
{
    if steps.len() > 0 {
        lemma_shorter_run(finalize_next::<K>(), states, events, steps);
        lemma_finalize(states.drop_last(), events.drop_last(), steps.drop_last());
    }
}

proof fn lemma_manifests<K>(
    states: Seq<FinalizeFlow>,
    events: Seq<FinalizeEvent<K>>,
    steps: Seq<FinalizeStep<K>>,
)
    requires
        is_run(finalize_next::<K>(), states, events, steps),
        states[0].phase == FinalizePhase::Begin,
    ensures
        forall|i: int|
            0 <= i < steps.len() ==> (manifest_of(#[trigger] steps[i]) matches Some(manifest)
                ==> states.last().describes(manifest)),
        !after_size(states.last().phase) && states.last().phase != FinalizePhase::Finished
            ==> forall|i: int| 0 <= i < steps.len() ==> manifest_of(#[trigger] steps[i]) is None,
    decreases steps.len(),
{
    if steps.len() > 0 {
        lemma_shorter_run(finalize_next::<K>(), states, events, steps);
        let t = steps.drop_last();
        lemma_manifests(states.drop_last(), events.drop_last(), t);
        assert forall|i: int| 0 <= i < steps.len() implies (manifest_of(
            #[trigger] steps[i],
        ) matches Some(manifest) ==> states.last().describes(manifest)) by {
            if i < t.len() {
                assert(steps[i] == t[i]);
            }
        }
        if !after_size(states.last().phase) && states.last().phase != FinalizePhase::Finished {
            assert forall|i: int| 0 <= i < steps.len() implies manifest_of(
                #[trigger] steps[i],
            ) is None by {
                if i < t.len() {
                    assert(steps[i] == t[i]);
                }
            }
        }
    }
}

proof fn lemma_on_course<K>(
    states: Seq<FinalizeFlow>,
    events: Seq<FinalizeEvent<K>>,
    steps: Seq<FinalizeStep<K>>,
)
    requires
        is_run(finalize_next::<K>(), states, events, steps),
        states[0].phase == FinalizePhase::Begin,
        states[0].pcrs is None,
    ensures
        on_course(states, events, steps),
    decreases steps.len(),
{
    if steps.len() > 0 {
        lemma_shorter_run(finalize_next::<K>(), states, events, steps);
        let s = states.drop_last();
        let e = events.drop_last();
        let t = steps.drop_last();
        let n = steps.len() - 1;
        lemma_finalize(s, e, t);
        lemma_on_course(s, e, t);
        let pre = s.last();
        let flow = states.last();
        let from = states[0].source@;
        let to = states[0].rootfs();
        if after_copy(flow.phase) {
            if after_copy(pre.phase) {
                let i = choose|i: int| 0 <= i < t.len() && copies(#[trigger] t[i], from, to);
                assert(copies(steps[i], from, to));
            } else {
                assert(copies(steps[n], from, to));
            }
        }
        if after_hash(flow.phase) {
            if after_hash(pre.phase) {
                let i = choose|i: int|
                    0 <= i < e.len() && hashed_to(s[i], #[trigger] e[i], flow.digest@);
                assert(hashed_to(states[i], events[i], flow.digest@));
            } else {
                assert(hashed_to(states[n], events[n], flow.digest@));
            }
        }
        if after_measurement(flow.phase) && flow.measured {
            if after_measurement(pre.phase) {
                let i = choose|i: int|
                    0 <= i < e.len() && measured_to(s[i], #[trigger] e[i], policy(flow.pcrs));
                assert(measured_to(states[i], events[i], policy(flow.pcrs)));
            } else {
                assert(measured_to(states[n], events[n], policy(flow.pcrs)));
            }
        }
        if after_size(flow.phase) {
            if after_size(pre.phase) {
                let i = choose|i: int|
                    0 <= i < e.len() && sized_to(s[i], #[trigger] e[i], flow.size);
                assert(sized_to(states[i], events[i], flow.size));
                let k = choose|k: int| 0 <= k < t.len() && encodes(#[trigger] t[k]);
                assert(encodes(steps[k]));
            } else {
                assert(sized_to(states[n], events[n], flow.size));
                assert(encodes(steps[n]));
            }
        }
        let file = states[0].manifest_file();
        if after_encode(flow.phase) {
            if after_encode(pre.phase) {
                let i = choose|i: int|
                    0 <= i < t.len() && writes_manifest(s[i], e[i], #[trigger] t[i], file);
                assert(writes_manifest(states[i], events[i], steps[i], file));
            } else {
                assert(writes_manifest(states[n], events[n], steps[n], file));
            }
        }
        let signed = states[0].signed_file();
        if flow.phase == FinalizePhase::SaveSignature {
            if pre.phase == FinalizePhase::SaveSignature {
                let i = choose|i: int| 0 <= i < t.len() && saves_signed(#[trigger] t[i], signed);
                assert(saves_signed(steps[i], signed));
            } else {
                assert(saves_signed(steps[n], signed));
            }
        }
        if flow.phase == FinalizePhase::Sign || flow.phase == FinalizePhase::SaveSignature {
            if pre.phase == FinalizePhase::Sign || pre.phase == FinalizePhase::SaveSignature {
                let i = choose|i: int| 0 <= i < t.len() && signs(#[trigger] t[i]);
                assert(signs(steps[i]));
            } else {
                assert(signs(steps[n]));
            }
        }
    }
}

/// A finished image carries the name and the configuration that were asked for. The root file system
/// that it was to be made of was copied to where the result says that it is. It has a policy if and
/// only if the build was to be measured, and then its manifest is signed.
pub proof fn finished_image_is_what_was_asked_for<K>(
    states: Seq<FinalizeFlow>,
    events: Seq<FinalizeEvent<K>>,
    steps: Seq<FinalizeStep<K>>,
    result: BuildResult,
)
    requires
        is_run(finalize_next::<K>(), states, events, steps),
        states[0].phase == FinalizePhase::Begin,
        states[0].pcrs is None,
        steps.len() > 0,
        steps.last() == FinalizeStep::<K>::Return(Ok(result)),
    ensures
        result.image_name@ == states[0].image_name@,
        result.config@ == states[0].config@,
        exists|i: int|
            0 <= i < steps.len() - 1 && copies(
                #[trigger] steps[i],
                states[0].source@,
                result.rootfs_path@,
            ),
        result.pcr_policy is Some <==> states[0].measured,
        result.manifest_signed <==> states[steps.len() - 1].phase == FinalizePhase::SaveSignature,
        states[0].measured ==> result.manifest_signed,
{
    lemma_shorter_run(finalize_next::<K>(), states, events, steps);
    let t = steps.drop_last();
    lemma_finalize(states.drop_last(), events.drop_last(), t);
    lemma_on_course(states.drop_last(), events.drop_last(), t);
    let from = states[0].source@;
    let to = states[0].rootfs();
    let i = choose|i: int| 0 <= i < t.len() && copies(#[trigger] t[i], from, to);
    assert(copies(steps[i], from, to));
}

/// Every manifest that is encoded or signed for a finished image says the same: the digest of the
/// hash and the size that were found, the configuration of the image and its policy. One is encoded,
/// and its text is written to where the result says that the manifest is. One is signed and saved
/// beside it if the result says so. The policy of a measured image holds the registers that its boot
/// was measured into.
pub proof fn manifests_say_what_was_found<K>(
    states: Seq<FinalizeFlow>,
    events: Seq<FinalizeEvent<K>>,
    steps: Seq<FinalizeStep<K>>,
    result: BuildResult,
)
    requires
        is_run(finalize_next::<K>(), states, events, steps),
        states[0].phase == FinalizePhase::Begin,
        states[0].pcrs is None,
        steps.len() > 0,
        steps.last() == FinalizeStep::<K>::Return(Ok(result)),
    ensures
        ({
            let flow = states.last();
            &&& forall|i: int|
                0 <= i < steps.len() ==> (manifest_of(#[trigger] steps[i]) matches Some(manifest)
                    ==> flow.describes(manifest))
            &&& flow.config@ == result.config@
            &&& policy(flow.pcrs) == policy(result.pcr_policy)
            &&& exists|i: int|
                0 <= i < events.len() && hashed_to(states[i], #[trigger] events[i], flow.digest@)
            &&& exists|i: int|
                0 <= i < events.len() && sized_to(states[i], #[trigger] events[i], flow.size)
        }),
        exists|i: int| 0 <= i < steps.len() && encodes(#[trigger] steps[i]),
        exists|i: int|
            0 <= i < steps.len() && writes_manifest(
                states[i],
                events[i],
                #[trigger] steps[i],
                result.manifest_path@,
            ),
        result.manifest_signed ==> exists|i: int| 0 <= i < steps.len() && signs(#[trigger] steps[i]),
        result.manifest_signed ==> exists|i: int|
            0 <= i < steps.len() && saves_signed(#[trigger] steps[i], states[0].signed_file()),
        states[0].measured ==> exists|i: int|
            0 <= i < events.len() && measured_to(
                states[i],
                #[trigger] events[i],
                policy(result.pcr_policy),
            ),
{
    lemma_manifests(states, events, steps);
    lemma_shorter_run(finalize_next::<K>(), states, events, steps);
    let s = states.drop_last();
    let e = events.drop_last();
    let t = steps.drop_last();
    lemma_finalize(s, e, t);
    lemma_on_course(s, e, t);
    let flow = states.last();
    let h = choose|i: int| 0 <= i < e.len() && hashed_to(s[i], #[trigger] e[i], flow.digest@);
    assert(hashed_to(states[h], events[h], flow.digest@));
    let z = choose|i: int| 0 <= i < e.len() && sized_to(s[i], #[trigger] e[i], flow.size);
    assert(sized_to(states[z], events[z], flow.size));
    let k = choose|i: int| 0 <= i < t.len() && encodes(#[trigger] t[i]);
    assert(encodes(steps[k]));
    let file = states[0].manifest_file();
    let w = choose|i: int| 0 <= i < t.len() && writes_manifest(s[i], e[i], #[trigger] t[i], file);
    assert(writes_manifest(states[w], events[w], steps[w], file));
    if result.manifest_signed {
        let i = choose|i: int| 0 <= i < t.len() && signs(#[trigger] t[i]);
        assert(signs(steps[i]));
        let signed = states[0].signed_file();
        let j = choose|j: int| 0 <= j < t.len() && saves_signed(#[trigger] t[j], signed);
        assert(saves_signed(steps[j], signed));
    }
    if states[0].measured {
        let i = choose|i: int|
            0 <= i < e.len() && measured_to(s[i], #[trigger] e[i], policy(flow.pcrs));
        assert(measured_to(states[i], events[i], policy(flow.pcrs)));
    }
}

/// An image that was built under a name is found by `FROM` with that name: the root file system that
/// it was made of is copied to the path that `FROM` looks at.
pub proof fn built_image_is_found_by_name<K>(
    work_dir: Seq<char>,
    states: Seq<FinalizeFlow>,
    events: Seq<FinalizeEvent<K>>,
    steps: Seq<FinalizeStep<K>>,
    result: BuildResult,
)
    requires
        is_run(finalize_next::<K>(), states, events, steps),
        states[0].phase == FinalizePhase::Begin,
        states[0].pcrs is None,
        states[0].output_dir@ == image_dir(work_dir, states[0].image_name@),
        steps.len() > 0,
        steps.last() == FinalizeStep::<K>::Return(Ok(result)),
    ensures
        result.rootfs_path@ == image_rootfs(work_dir, result.image_name@),
        exists|i: int|
            0 <= i < steps.len() - 1 && copies(
                #[trigger] steps[i],
                states[0].source@,
                image_rootfs(work_dir, result.image_name@),
            ),
{
    finished_image_is_what_was_asked_for(states, events, steps, result);
    lemma_shorter_run(finalize_next::<K>(), states, events, steps);
    lemma_finalize(states.drop_last(), events.drop_last(), steps.drop_last());
    assert(result.rootfs_path@ == states[0].rootfs());
    let from = states[0].source@;
    let to = result.rootfs_path@;
    let i = choose|i: int| 0 <= i < steps.len() - 1 && copies(#[trigger] steps[i], from, to);
    assert(copies(steps[i], from, image_rootfs(work_dir, result.image_name@)));
}

} // verus!
