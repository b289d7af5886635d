//! The key that signs the manifests of a build.
use vstd::prelude::*;
use crate::build::error::{fail, failed, BuildError, ErrorKind};
use crate::build::runner::BuildRunner;
use crate::flow::{is_run, Step};
use crate::image::{copy_text, text_view};
use crate::path::{join_path, joined_path};

verus! {

/// The permissions of a file that only its owner may read and write.
pub const OWNER_ONLY: u32 = 384;

/// The file of a secret key.
pub open spec fn secret_file(dir: Seq<char>) -> Seq<char> {
    joined_path(dir, "build_signing_key"@)
}

/// The file of a public key.
pub open spec fn public_file(dir: Seq<char>) -> Seq<char> {
    joined_path(dir, "build_signing_key.pub"@)
}

/// The file of a secret key.
pub fn secret_path(dir: &str) -> (r: String)
    ensures
        r@ == secret_file(dir@),
{
    join_path(dir, "build_signing_key")
}

/// The file of a public key.
pub fn public_path(dir: &str) -> (r: String)
    ensures
        r@ == public_file(dir@),
{
    join_path(dir, "build_signing_key.pub")
}

/// How far the search for a key has come.
#[derive(Clone, Copy, PartialEq, Eq, Structural)]
pub enum KeyPhase {
    Begin,
    ProbeDir,
    ProbeSecret,
    ProbePublic,
    ProbeStandardSecret,
    ProbeStandardPublic,
    ReadSecret,
    ReadPublic,
    Load,
    CreateDir,
    Generate,
    WritePublic,
    WriteSecret,
    Restrict,
    Finished,
}

/// What the search for a key asks for.
pub enum KeyAction {
    /// Find out whether the path exists.
    Probe { path: String },
    /// Read a file.
    Read { path: String },
    /// Make a key of its two parts.
    Load { seed: Vec<u8>, public: Vec<u8> },
    /// Create the directory and its parents.
    CreateDir { path: String },
    /// Generate a key.
    Generate,
    /// Write a file.
    Write { path: String, content: Vec<u8> },
    /// Set the permissions of a file.
    SetMode { path: String, mode: u32 },
}

/// What happened to the last action of the search for a key of type `K`.
pub enum KeyEvent<K> {
    Start,
    Probed(bool),
    Content(Result<Vec<u8>, String>),
    Loaded(Result<K, String>),
    /// A new key and its two parts.
    Generated { key: K, seed: Vec<u8>, public: Vec<u8> },
    Done(Result<(), String>),
}

/// The answer of the search for a key to an event.
pub type KeyStep<K> = Step<KeyAction, Option<K>, BuildError>;

/// Workflow that finds the key of a build, or generates it.
pub struct KeyFlow<K> {
    /// The directory that was asked for.
    pub key_path: Option<String>,
    pub work_dir: String,
    /// The directory of the key.
    pub dir: String,
    pub seed: Option<Vec<u8>>,
    pub key: Option<K>,
    pub phase: KeyPhase,
}

impl<K> KeyFlow<K> {
    /// The workflow ends with an error of the execution.
    pub open spec fn fails(
        pre: KeyFlow<K>,
        text: Seq<char>,
        post: KeyFlow<K>,
        step: KeyStep<K>,
    ) -> bool {
        &&& post == KeyFlow { phase: KeyPhase::Finished, ..pre }
        &&& failed(step, ErrorKind::Execution, text)
    }

    /// The workflow goes to this phase and looks for this file.
    pub open spec fn probes(
        pre: KeyFlow<K>,
        phase: KeyPhase,
        file: Seq<char>,
        post: KeyFlow<K>,
        step: KeyStep<K>,
    ) -> bool {
        &&& post == KeyFlow { phase, ..pre }
        &&& step matches Step::Do(KeyAction::Probe { path }) && path@ == file
    }

    /// The workflow goes on in the working directory.
    pub open spec fn tries_standard(pre: KeyFlow<K>, post: KeyFlow<K>, step: KeyStep<K>) -> bool {
        &&& post == KeyFlow { dir: post.dir, phase: KeyPhase::ProbeStandardSecret, ..pre }
        &&& post.dir@ == pre.work_dir@
        &&& step matches Step::Do(KeyAction::Probe { path }) && path@ == secret_file(pre.work_dir@)
    }

    /// The workflow reads the key of the directory that it is at.
    pub open spec fn reads_key(pre: KeyFlow<K>, post: KeyFlow<K>, step: KeyStep<K>) -> bool {
        &&& post == KeyFlow { phase: KeyPhase::ReadSecret, ..pre }
        &&& step matches Step::Do(KeyAction::Read { path }) && path@ == secret_file(pre.dir@)
    }

    /// The directory of a new key: the one that was asked for, or else the working directory.
    pub open spec fn new_dir(self) -> Seq<char> {
        match self.key_path {
            Some(dir) => dir@,
            None => self.work_dir@,
        }
    }

    /// There is no key yet: the workflow creates the directory of a new one.
    pub open spec fn makes_key(pre: KeyFlow<K>, post: KeyFlow<K>, step: KeyStep<K>) -> bool {
        &&& post == KeyFlow { dir: post.dir, phase: KeyPhase::CreateDir, ..pre }
        &&& post.dir@ == pre.new_dir()
        &&& step matches Step::Do(KeyAction::CreateDir { path }) && path@ == pre.new_dir()
    }

    /// How the workflow answers an event.
    pub open spec fn transition(
        pre: KeyFlow<K>,
        event: KeyEvent<K>,
        post: KeyFlow<K>,
        step: KeyStep<K>,
    ) -> bool {
        match (pre.phase, event) {
            (KeyPhase::Begin, KeyEvent::Start) => match pre.key_path {
                Some(dir) => {
                    &&& post == KeyFlow { dir: post.dir, phase: KeyPhase::ProbeDir, ..pre }
                    &&& post.dir@ == dir@
                    &&& step matches Step::Do(KeyAction::Probe { path }) && path@ == dir@
                },
                None => Self::tries_standard(pre, post, step),
            },
            (KeyPhase::ProbeDir, KeyEvent::Probed(present)) => if present {
                Self::probes(pre, KeyPhase::ProbeSecret, secret_file(pre.dir@), post, step)
            } else {
                Self::makes_key(pre, post, step)
            },
            (KeyPhase::ProbeSecret, KeyEvent::Probed(present)) => if present {
                Self::probes(pre, KeyPhase::ProbePublic, public_file(pre.dir@), post, step)
            } else {
                Self::tries_standard(pre, post, step)
            },
            (KeyPhase::ProbePublic, KeyEvent::Probed(present)) => if present {
                Self::reads_key(pre, post, step)
            } else {
                Self::tries_standard(pre, post, step)
            },
            (KeyPhase::ProbeStandardSecret, KeyEvent::Probed(present)) => if present {
                Self::probes(pre, KeyPhase::ProbeStandardPublic, public_file(pre.dir@), post, step)
            } else {
                Self::makes_key(pre, post, step)
            },
            (KeyPhase::ProbeStandardPublic, KeyEvent::Probed(present)) => if present {
                Self::reads_key(pre, post, step)
            } else {
                Self::makes_key(pre, post, step)
            },
            (KeyPhase::ReadSecret, KeyEvent::Content(Err(e))) => Self::fails(
                pre,
                "Failed to read signing key: "@ + e@,
                post,
                step,
            ),
            (KeyPhase::ReadSecret, KeyEvent::Content(Ok(seed))) => {
                &&& post == KeyFlow { seed: Some(seed), phase: KeyPhase::ReadPublic, ..pre }
                &&& step matches Step::Do(KeyAction::Read { path }) && path@ == public_file(
                    pre.dir@,
                )
            },
            (KeyPhase::ReadPublic, KeyEvent::Content(Err(e))) => Self::fails(
                pre,
                "Failed to read public key: "@ + e@,
                post,
                step,
            ),
            (KeyPhase::ReadPublic, KeyEvent::Content(Ok(public))) => match pre.seed {
                Some(seed) => {
                    &&& post == KeyFlow { seed: None, phase: KeyPhase::Load, ..pre }
                    &&& step == KeyStep::<K>::Do(KeyAction::Load { seed, public })
                },
                None => post == pre && step is Unexpected,
            },
            (KeyPhase::Load, KeyEvent::Loaded(Err(e))) => Self::fails(
                pre,
                "Failed to load signing key: "@ + e@,
                post,
                step,
            ),
            (KeyPhase::Load, KeyEvent::Loaded(Ok(key))) => {
                &&& post == KeyFlow { phase: KeyPhase::Finished, ..pre }
                &&& step == KeyStep::Return(Ok(Some(key)))
            },
            (KeyPhase::CreateDir, KeyEvent::Done(Err(e))) => Self::fails(
                pre,
                "Failed to create key dir: "@ + e@,
                post,
                step,
            ),
            (KeyPhase::CreateDir, KeyEvent::Done(Ok(_))) => {
                &&& post == KeyFlow { phase: KeyPhase::Generate, ..pre }
                &&& step matches Step::Do(KeyAction::Generate)
            },
            (KeyPhase::Generate, KeyEvent::Generated { key, seed, public }) => {
                &&& post == KeyFlow {
                    key: Some(key),
                    seed: Some(seed),
                    phase: KeyPhase::WritePublic,
                    ..pre
                }
                &&& step matches Step::Do(KeyAction::Write { path, content }) && path@
                    == public_file(pre.dir@) && content == public
            },
            (KeyPhase::WritePublic, KeyEvent::Done(Err(e))) => Self::fails(
                pre,
                "Failed to save public key: "@ + e@,
                post,
                step,
            ),
            (KeyPhase::WritePublic, KeyEvent::Done(Ok(_))) => match pre.seed {
                Some(seed) => {
                    &&& post == KeyFlow { seed: None, phase: KeyPhase::WriteSecret, ..pre }
                    &&& step matches Step::Do(KeyAction::Write { path, content }) && path@
                        == secret_file(pre.dir@) && content == seed
                },
                None => post == pre && step is Unexpected,
            },
            (KeyPhase::WriteSecret, KeyEvent::Done(Err(e))) => Self::fails(
                pre,
                "Failed to save signing key: "@ + e@,
                post,
                step,
            ),
            (KeyPhase::WriteSecret, KeyEvent::Done(Ok(_))) => {
                &&& post == KeyFlow { phase: KeyPhase::Restrict, ..pre }
                &&& step matches Step::Do(KeyAction::SetMode { path, mode }) && path@
                    == secret_file(pre.dir@) && mode == OWNER_ONLY
            },
            (KeyPhase::Restrict, KeyEvent::Done(_)) => match pre.key {
                Some(key) => {
                    &&& post == KeyFlow { key: None, phase: KeyPhase::Finished, ..pre }
                    &&& step == KeyStep::Return(Ok(Some(key)))
                },
                None => post == pre && step is Unexpected,
            },
            _ => post == pre && step is Unexpected,
        }
    }

    fn give_up(&mut self, prefix: &str, detail: &str) -> (r: KeyStep<K>)
        ensures
            Self::fails(*old(self), prefix@ + detail@, *final(self), r),
    {
        self.phase = KeyPhase::Finished;
        fail(ErrorKind::Execution, prefix, detail)
    }

    fn probe(&mut self, phase: KeyPhase, path: String) -> (r: KeyStep<K>)
        ensures
            Self::probes(*old(self), phase, path@, *final(self), r),
    {
        self.phase = phase;
        Step::Do(KeyAction::Probe { path })
    }

    fn try_standard(&mut self) -> (r: KeyStep<K>)
        ensures
            Self::tries_standard(*old(self), *final(self), r),
    {
        self.dir = self.work_dir.clone();
        self.phase = KeyPhase::ProbeStandardSecret;
        Step::Do(KeyAction::Probe { path: secret_path(self.work_dir.as_str()) })
    }

    fn read_key(&mut self) -> (r: KeyStep<K>)
        ensures
            Self::reads_key(*old(self), *final(self), r),
    {
        self.phase = KeyPhase::ReadSecret;
        Step::Do(KeyAction::Read { path: secret_path(self.dir.as_str()) })
    }

    fn make_key(&mut self) -> (r: KeyStep<K>)
        ensures
            Self::makes_key(*old(self), *final(self), r),
    {
        let dir = match copy_text(&self.key_path) {
            Some(dir) => dir,
            None => self.work_dir.clone(),
        };
        self.dir = dir.clone();
        self.phase = KeyPhase::CreateDir;
        Step::Do(KeyAction::CreateDir { path: dir })
    }

    /// Takes the outcome of the last action and says what to do next. The directory that was asked
    /// for comes first: its key is used if it is complete, and generated if the directory is
    /// missing. Otherwise the key of the working directory is used if it is complete. Where no key
    /// is found a new one is generated, in the directory that was asked for or else in the working
    /// directory.
    pub fn step(&mut self, event: KeyEvent<K>) -> (r: KeyStep<K>)
        ensures
            Self::transition(*old(self), event, *final(self), r),
            r != KeyStep::<K>::Return(Ok(None)),
    {
        match (self.phase, event) {
            (KeyPhase::Begin, KeyEvent::Start) => match copy_text(&self.key_path) {
                Some(dir) => {
                    self.dir = dir.clone();
                    self.phase = KeyPhase::ProbeDir;
                    Step::Do(KeyAction::Probe { path: dir })
                },
                None => self.try_standard(),
            },
            (KeyPhase::ProbeDir, KeyEvent::Probed(present)) => {
                if present {
                    let path = secret_path(self.dir.as_str());
                    self.probe(KeyPhase::ProbeSecret, path)
                } else {
                    self.make_key()
                }
            },
            (KeyPhase::ProbeSecret, KeyEvent::Probed(present)) => {
                if present {
                    let path = public_path(self.dir.as_str());
                    self.probe(KeyPhase::ProbePublic, path)
                } else {
                    self.try_standard()
                }
            },
            (KeyPhase::ProbePublic, KeyEvent::Probed(present)) => {
                if present {
                    self.read_key()
                } else {
                    self.try_standard()
                }
            },
            (KeyPhase::ProbeStandardSecret, KeyEvent::Probed(present)) => {
                if present {
                    let path = public_path(self.dir.as_str());
                    self.probe(KeyPhase::ProbeStandardPublic, path)
                } else {
                    self.make_key()
                }
            },
            (KeyPhase::ProbeStandardPublic, KeyEvent::Probed(present)) => {
                if present {
                    self.read_key()
                } else {
                    self.make_key()
                }
            },
            (KeyPhase::ReadSecret, KeyEvent::Content(Err(e))) => self.give_up(
                "Failed to read signing key: ",
                e.as_str(),
            ),
            (KeyPhase::ReadSecret, KeyEvent::Content(Ok(seed))) => {
                self.seed = Some(seed);
                self.phase = KeyPhase::ReadPublic;
                Step::Do(KeyAction::Read { path: public_path(self.dir.as_str()) })
            },
            (KeyPhase::ReadPublic, KeyEvent::Content(Err(e))) => self.give_up(
                "Failed to read public key: ",
                e.as_str(),
            ),
            (KeyPhase::ReadPublic, KeyEvent::Content(Ok(public))) => match self.seed.take() {
                Some(seed) => {
                    self.phase = KeyPhase::Load;
                    Step::Do(KeyAction::Load { seed, public })
                },
                None => Step::Unexpected,
            },
            (KeyPhase::Load, KeyEvent::Loaded(Err(e))) => self.give_up(
                "Failed to load signing key: ",
                e.as_str(),
            ),
            (KeyPhase::Load, KeyEvent::Loaded(Ok(key))) => {
                self.phase = KeyPhase::Finished;
                Step::Return(Ok(Some(key)))
            },
            (KeyPhase::CreateDir, KeyEvent::Done(Err(e))) => self.give_up(
                "Failed to create key dir: ",
                e.as_str(),
            ),
            (KeyPhase::CreateDir, KeyEvent::Done(Ok(_))) => {
                self.phase = KeyPhase::Generate;
                Step::Do(KeyAction::Generate)
            },
            (KeyPhase::Generate, KeyEvent::Generated { key, seed, public }) => {
                self.key = Some(key);
                self.seed = Some(seed);
                self.phase = KeyPhase::WritePublic;
                Step::Do(
                    KeyAction::Write { path: public_path(self.dir.as_str()), content: public },
                )
            },
            (KeyPhase::WritePublic, KeyEvent::Done(Err(e))) => self.give_up(
                "Failed to save public key: ",
                e.as_str(),
            ),
            (KeyPhase::WritePublic, KeyEvent::Done(Ok(_))) => match self.seed.take() {
                Some(seed) => {
                    self.phase = KeyPhase::WriteSecret;
                    Step::Do(
                        KeyAction::Write { path: secret_path(self.dir.as_str()), content: seed },
                    )
                },
                None => Step::Unexpected,
            },
            (KeyPhase::WriteSecret, KeyEvent::Done(Err(e))) => self.give_up(
                "Failed to save signing key: ",
                e.as_str(),
            ),
            (KeyPhase::WriteSecret, KeyEvent::Done(Ok(_))) => {
                self.phase = KeyPhase::Restrict;
                Step::Do(
                    KeyAction::SetMode { path: secret_path(self.dir.as_str()), mode: OWNER_ONLY },
                )
            },
            (KeyPhase::Restrict, KeyEvent::Done(_)) => match self.key.take() {
                Some(key) => {
                    self.phase = KeyPhase::Finished;
                    Step::Return(Ok(Some(key)))
                },
                None => Step::Unexpected,
            },
            _ => Step::Unexpected,
        }
    }
}

impl BuildRunner {
    /// Begins to look for the key that signs the manifest, and to generate it where there is none.
    pub fn resolve_signing_key<K>(&self) -> (r: KeyFlow<K>)
        ensures
            text_view(r.key_path) == text_view(self.signing_key_path),
            r.work_dir@ == self.work_dir@,
            r.seed is None,
            r.key is None,
            r.phase == KeyPhase::Begin,
    {
        KeyFlow {
            key_path: copy_text(&self.signing_key_path),
            work_dir: self.work_dir.clone(),
            dir: String::new(),
            seed: None,
            key: None,
            phase: KeyPhase::Begin,
        }
    }
}

/// The steps of the search for a key.
pub open spec fn key_next<K>() -> spec_fn(KeyFlow<K>, KeyEvent<K>, KeyFlow<K>, KeyStep<K>) -> bool {
    |pre: KeyFlow<K>, event: KeyEvent<K>, post: KeyFlow<K>, step: KeyStep<K>|
        KeyFlow::transition(pre, event, post, step)
}

/// The answer writes this content to this file.
pub open spec fn writes_file<K>(step: KeyStep<K>, file: Seq<char>, bytes: Vec<u8>) -> bool {
    step matches Step::Do(KeyAction::Write { path, content }) && path@ == file && content == bytes
}

/// The answer reads this file.
pub open spec fn reads_file<K>(step: KeyStep<K>, file: Seq<char>) -> bool {
    step matches Step::Do(KeyAction::Read { path }) && path@ == file
}

/// A key that was generated into a directory is found there again. The first search finds the
/// directory missing, and writes the parts of the new key to its two files. The second finds all of
/// them, reads the same files, and makes a key of the same parts.
pub proof fn generated_key_is_found_again<K>(
    dir: Seq<char>,
    key: K,
    seed: Vec<u8>,
    public: Vec<u8>,
    made: Seq<KeyFlow<K>>,
    writes: Seq<KeyStep<K>>,
    found: Seq<KeyFlow<K>>,
    reads: Seq<KeyStep<K>>,
)
    requires
        made[0].phase == KeyPhase::Begin,
        text_view(made[0].key_path) == Some(dir),
        is_run(
            key_next(),
            made,
            seq![
                KeyEvent::Start,
                KeyEvent::Probed(false),
                KeyEvent::Done(Ok(())),
                (KeyEvent::Generated { key, seed, public }),
                KeyEvent::Done(Ok(())),
                KeyEvent::Done(Ok(())),
                KeyEvent::Done(Ok(())),
            ],
            writes,
        ),
        found[0].phase == KeyPhase::Begin,
        text_view(found[0].key_path) == Some(dir),
        is_run(
            key_next(),
            found,
            seq![
                KeyEvent::Start,
                KeyEvent::Probed(true),
                KeyEvent::Probed(true),
                KeyEvent::Probed(true),
                KeyEvent::Content(Ok(seed)),
                KeyEvent::Content(Ok(public)),
            ],
            reads,
        ),
    ensures
        writes_file(writes[3], public_file(dir), public),
        writes_file(writes[4], secret_file(dir), seed),
        writes[6] == KeyStep::Return(Ok(Some(key))),
        reads_file(reads[3], secret_file(dir)),
        reads_file(reads[4], public_file(dir)),
        reads[5] == KeyStep::<K>::Do(KeyAction::Load { seed, public }),
{
    let first = seq![
        KeyEvent::<K>::Start,
        KeyEvent::Probed(false),
        KeyEvent::Done(Ok(())),
        (KeyEvent::Generated { key, seed, public }),
        KeyEvent::Done(Ok(())),
        KeyEvent::Done(Ok(())),
        KeyEvent::Done(Ok(())),
    ];
    assert forall|i: int| 0 <= i < 7 implies KeyFlow::transition(
        made[i],
        #[trigger] first[i],
        made[i + 1],
        writes[i],
    ) by {
        assert(key_next::<K>()(made[i], first[i], made[i + 1], writes[i]));
    }
    assert(first[0] == KeyEvent::<K>::Start);
    assert(first[1] == KeyEvent::<K>::Probed(false));
    assert(first[2] == KeyEvent::<K>::Done(Ok(())));
    assert(first[3] == KeyEvent::<K>::Generated { key, seed, public });
    assert(first[4] == KeyEvent::<K>::Done(Ok(())));
    assert(first[5] == KeyEvent::<K>::Done(Ok(())));
    assert(first[6] == KeyEvent::<K>::Done(Ok(())));
    let second = seq![
        KeyEvent::<K>::Start,
        KeyEvent::Probed(true),
        KeyEvent::Probed(true),
        KeyEvent::Probed(true),
        KeyEvent::Content(Ok(seed)),
        KeyEvent::Content(Ok(public)),
    ];
    assert forall|i: int| 0 <= i < 6 implies KeyFlow::transition(
        found[i],
        #[trigger] second[i],
        found[i + 1],
        reads[i],
    ) by {
        assert(key_next::<K>()(found[i], second[i], found[i + 1], reads[i]));
    }
    assert(second[0] == KeyEvent::<K>::Start);
    assert(second[1] == KeyEvent::<K>::Probed(true));
    assert(second[2] == KeyEvent::<K>::Probed(true));
    assert(second[3] == KeyEvent::<K>::Probed(true));
    assert(second[4] == KeyEvent::<K>::Content(Ok(seed)));
    assert(second[5] == KeyEvent::<K>::Content(Ok(public)));
}

/// The search for a key never ends without one: it ends with a key or with an error.
pub proof fn search_never_ends_without_a_key<K>(
    pre: KeyFlow<K>,
    event: KeyEvent<K>,
    post: KeyFlow<K>,
    step: KeyStep<K>,
)
    requires
        KeyFlow::transition(pre, event, post, step),
    ensures
        step != KeyStep::<K>::Return(Ok(None)),
{
}

/// The answers to the search for the files of a key where no complete key is there, and where the
/// directory that was asked for, if one was, is.
pub open spec fn finds_no_key<K>(asked: bool, probes: Seq<KeyEvent<K>>) -> bool {
    let no = KeyEvent::<K>::Probed(false);
    let yes = KeyEvent::<K>::Probed(true);
    if asked {
        ||| probes == seq![yes, no, no]
        ||| probes == seq![yes, no, yes, no]
        ||| probes == seq![yes, yes, no, no]
        ||| probes == seq![yes, yes, no, yes, no]
    } else {
        ||| probes == seq![no]
        ||| probes == seq![yes, no]
    }
}

/// Where the directory that was asked for is incomplete, or none was asked for, and the working
/// directory has no complete key either, a new key is generated and returned, with its files in the
/// directory that was asked for or else in the working directory.
pub proof fn missing_key_is_generated<K>(
    probes: Seq<KeyEvent<K>>,
    key: K,
    seed: Vec<u8>,
    public: Vec<u8>,
    states: Seq<KeyFlow<K>>,
    steps: Seq<KeyStep<K>>,
)
    requires
        states[0].phase == KeyPhase::Begin,
        finds_no_key(states[0].key_path is Some, probes),
        is_run(
            key_next(),
            states,
            seq![KeyEvent::Start] + probes + seq![
                KeyEvent::Done(Ok(())),
                (KeyEvent::Generated { key, seed, public }),
                KeyEvent::Done(Ok(())),
                KeyEvent::Done(Ok(())),
                KeyEvent::Done(Ok(())),
            ],
            steps,
        ),
    ensures
        writes_file(steps[probes.len() as int + 2], public_file(states[0].new_dir()), public),
        writes_file(steps[probes.len() as int + 3], secret_file(states[0].new_dir()), seed),
        steps.last() == KeyStep::Return(Ok(Some(key))),
{
    let n = probes.len() as int;
    let begin = seq![KeyEvent::<K>::Start];
    let end = seq![
        KeyEvent::<K>::Done(Ok(())),
        (KeyEvent::Generated { key, seed, public }),
        KeyEvent::Done(Ok(())),
        KeyEvent::Done(Ok(())),
        KeyEvent::Done(Ok(())),
    ];
    let events = begin + probes + end;
    assert(key_next::<K>()(states[0], events[0], states[1], steps[0]));
    assert(events[0] == KeyEvent::<K>::Start);
    assert forall|i: int| 0 <= i < n implies KeyFlow::transition(
        states[i + 1],
        #[trigger] probes[i],
        states[i + 2],
        steps[i + 1],
    ) by {
        assert(events[i + 1] == probes[i]);
        assert(key_next::<K>()(states[i + 1], events[i + 1], states[i + 2], steps[i + 1]));
    }
    lemma_search(probes, states.take(n + 2), steps.take(n + 1));
    assert forall|i: int| 0 <= i < 5 implies KeyFlow::transition(
        states[n + 1 + i],
        #[trigger] end[i],
        states[n + 2 + i],
        steps[n + 1 + i],
    ) by {
        assert(events[n + 1 + i] == end[i]);
        assert(key_next::<K>()(
            states[n + 1 + i],
            events[n + 1 + i],
            states[n + 2 + i],
            steps[n + 1 + i],
        ));
    }
    assert(states.take(n + 2)[n + 1] == states[n + 1]);
    assert(end[0] == KeyEvent::<K>::Done(Ok(())));
    assert(end[1] == KeyEvent::<K>::Generated { key, seed, public });
    assert(end[2] == KeyEvent::<K>::Done(Ok(())));
    assert(end[3] == KeyEvent::<K>::Done(Ok(())));
    assert(end[4] == KeyEvent::<K>::Done(Ok(())));
}

/// The answers that find no complete key lead to the directory of a new one.
proof fn lemma_search<K>(
    probes: Seq<KeyEvent<K>>,
    states: Seq<KeyFlow<K>>,
    steps: Seq<KeyStep<K>>,
)
    requires
        states.len() == probes.len() + 2,
        steps.len() == probes.len() + 1,
        states[0].phase == KeyPhase::Begin,
        finds_no_key(states[0].key_path is Some, probes),
        KeyFlow::transition(states[0], KeyEvent::Start, states[1], steps[0]),
        forall|i: int|
            0 <= i < probes.len() ==> KeyFlow::transition(
                states[i + 1],
                #[trigger] probes[i],
                states[i + 2],
                steps[i + 1],
            ),
    ensures
        states.last().phase == KeyPhase::CreateDir,
        states.last().dir@ == states[0].new_dir(),
{
    let n = probes.len();
    assert(n > 0 ==> KeyFlow::transition(states[1], probes[0], states[2], steps[1]));
    assert(n > 1 ==> KeyFlow::transition(states[2], probes[1], states[3], steps[2]));
    assert(n > 2 ==> KeyFlow::transition(states[3], probes[2], states[4], steps[3]));
    assert(n > 3 ==> KeyFlow::transition(states[4], probes[3], states[5], steps[4]));
    assert(n > 4 ==> KeyFlow::transition(states[5], probes[4], states[6], steps[5]));
}

/// A key is returned only after it was loaded from its files, or after it was generated and its
/// secret file was restricted to its owner.
pub proof fn key_is_loaded_or_restricted<K>(
    pre: KeyFlow<K>,
    event: KeyEvent<K>,
    post: KeyFlow<K>,
    step: KeyStep<K>,
)
    requires
        KeyFlow::transition(pre, event, post, step),
        step matches Step::Return(Ok(Some(_))),
    ensures
        pre.phase == KeyPhase::Load || pre.phase == KeyPhase::Restrict,
{
}

} // verus!
