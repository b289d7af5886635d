//! The build as a whole: instruction after instruction, up to the finished image.
use vstd::prelude::*;
use crate::build::error::{failed, fail_plain, BuildError, ErrorKind};
use crate::build::finalize::BuildResult;
use crate::build::instruction::{
    config_of, is_outside, next_outside, without_requests, Instruction, Vyomafile,
};
use crate::build::runner::BuildRunner;
use crate::flow::{is_run, lemma_first_steps, lemma_shorter_run, Step};
use crate::image::{text_view, OciImageConfig};
use crate::text::owned;

verus! {

/// How far a build has come.
#[derive(Clone, Copy, PartialEq, Eq, Structural)]
pub enum BuildPhase {
    Begin,
    Parse,
    From,
    Run,
    Copy,
    Finalize,
    Finished,
}

/// What a build asks for.
pub enum BuildAction {
    /// Parse the instruction file.
    Parse { path: String },
    /// Find the root file system of a base image.
    From { image: String },
    /// Run a command on a root file system.
    Run { rootfs: String, command: String },
    /// Copy a file of the context into a root file system.
    Copy { rootfs: String, context_dir: String, src: String, dst: String },
    /// Make an image of a root file system.
    Finalize { rootfs: String, image_name: String, config: OciImageConfig },
}

/// What happened to the last action of a build.
pub enum BuildEvent {
    Start,
    Parsed(Result<Vyomafile, String>),
    /// A root file system, from a base image or a command.
    Rootfs(Result<String, BuildError>),
    Copied(Result<(), BuildError>),
    Built(Result<BuildResult, BuildError>),
}

/// Workflow of a build.
pub struct BuildFlow {
    pub file: String,
    pub context_dir: String,
    pub image_name: String,
    pub instructions: Vec<Instruction>,
    /// The instruction that is being carried out.
    pub index: usize,
    /// The root file system so far.
    pub rootfs: Option<String>,
    /// The configuration so far.
    pub config: OciImageConfig,
    pub phase: BuildPhase,
}

/// The answer of a build to an event.
pub type BuildStep = Step<BuildAction, BuildResult, BuildError>;

impl BuildFlow {
    /// The configuration is what the instructions before the current one say.
    pub open spec fn wf(self) -> bool {
        &&& self.index <= self.instructions@.len()
        &&& self.config@ == config_of(self.instructions@.take(self.index as int))
        &&& (self.phase == BuildPhase::From || self.phase == BuildPhase::Run || self.phase
            == BuildPhase::Copy) ==> self.index < self.instructions@.len() && is_outside(
            self.instructions@[self.index as int],
        )
    }

    /// What never changes once the file is parsed.
    pub open spec fn same_order(pre: BuildFlow, post: BuildFlow) -> bool {
        &&& post.file == pre.file
        &&& post.context_dir == pre.context_dir
        &&& post.image_name == pre.image_name
    }

    /// The build goes on at the instruction `from` with this root file system: it takes over what
    /// the following instructions say about the image, and stops at the first one that needs work
    /// outside, or at the end.
    pub open spec fn resumes(
        pre: BuildFlow,
        instructions: Vec<Instruction>,
        from: int,
        rootfs: Option<Seq<char>>,
        post: BuildFlow,
        step: BuildStep,
    ) -> bool {
        let list = instructions@;
        let at = next_outside(list, from);
        &&& Self::same_order(pre, post)
        &&& post.instructions == instructions
        &&& post.index == at
        &&& text_view(post.rootfs) == rootfs
        &&& post.config@ == config_of(list.take(at))
        &&& if at >= list.len() {
            match rootfs {
                Some(path) => {
                    &&& post.phase == BuildPhase::Finalize
                    &&& step matches Step::Do(
                        BuildAction::Finalize { rootfs: r, image_name, config },
                    ) && r@ == path && image_name@ == pre.image_name@ && config@ == config_of(list)
                },
                None => {
                    &&& post.phase == BuildPhase::Finished
                    &&& failed(step, ErrorKind::Execution, "No FROM instruction found"@)
                },
            }
        } else {
            match (list[at], rootfs) {
                (Instruction::From { image }, _) => {
                    &&& post.phase == BuildPhase::From
                    &&& step matches Step::Do(BuildAction::From { image: i }) && i@ == image@
                },
                (Instruction::Run { command }, Some(path)) => {
                    &&& post.phase == BuildPhase::Run
                    &&& step matches Step::Do(BuildAction::Run { rootfs: r, command: c }) && r@
                        == path && c@ == command@
                },
                (Instruction::Run { .. }, None) => {
                    &&& post.phase == BuildPhase::Finished
                    &&& failed(step, ErrorKind::Execution, "RUN instruction without FROM"@)
                },
                (Instruction::Copy { src, dst }, Some(path)) => {
                    &&& post.phase == BuildPhase::Copy
                    &&& step matches Step::Do(
                        BuildAction::Copy { rootfs: r, context_dir, src: s, dst: d },
                    ) && r@ == path && context_dir@ == pre.context_dir@ && s@ == src@ && d@ == dst@
                },
                (Instruction::Copy { .. }, None) => {
                    &&& post.phase == BuildPhase::Finished
                    &&& failed(step, ErrorKind::Execution, "COPY instruction without FROM"@)
                },
                _ => false,
            }
        }
    }

    /// The build ends with this result.
    pub open spec fn ends(
        pre: BuildFlow,
        result: Result<BuildResult, BuildError>,
        post: BuildFlow,
        step: BuildStep,
    ) -> bool {
        &&& post == BuildFlow { phase: BuildPhase::Finished, ..pre }
        &&& step == BuildStep::Return(result)
    }

    /// How the workflow answers an event.
    pub open spec fn transition(
        pre: BuildFlow,
        event: BuildEvent,
        post: BuildFlow,
        step: BuildStep,
    ) -> bool {
        match (pre.phase, event) {
            (BuildPhase::Begin, BuildEvent::Start) => {
                &&& post == BuildFlow { phase: BuildPhase::Parse, ..pre }
                &&& step matches Step::Do(BuildAction::Parse { path }) && path@ == pre.file@
            },
            (BuildPhase::Parse, BuildEvent::Parsed(Ok(file))) => Self::resumes(
                pre,
                file.instructions,
                0,
                None,
                post,
                step,
            ),
            (BuildPhase::Parse, BuildEvent::Parsed(Err(e))) => {
                &&& post == BuildFlow { phase: BuildPhase::Finished, ..pre }
                &&& failed(step, ErrorKind::Parse, e@)
            },
            (BuildPhase::From | BuildPhase::Run, BuildEvent::Rootfs(Ok(path))) => Self::resumes(
                pre,
                pre.instructions,
                pre.index + 1,
                Some(path@),
                post,
                step,
            ),
            (BuildPhase::From | BuildPhase::Run, BuildEvent::Rootfs(Err(e))) => Self::ends(
                pre,
                Err(e),
                post,
                step,
            ),
            (BuildPhase::Copy, BuildEvent::Copied(Ok(_))) => Self::resumes(
                pre,
                pre.instructions,
                pre.index + 1,
                text_view(pre.rootfs),
                post,
                step,
            ),
            (BuildPhase::Copy, BuildEvent::Copied(Err(e))) => Self::ends(pre, Err(e), post, step),
            (BuildPhase::Finalize, BuildEvent::Built(result)) => Self::ends(
                pre,
                result,
                post,
                step,
            ),
            _ => post == pre && step is Unexpected,
        }
    }

    /// Takes over what the instructions from the current one on say about the image, up to the
    /// first that needs work outside.
    fn absorb(&mut self)
        requires
            old(self).index <= old(self).instructions@.len(),
            old(self).config@ == config_of(
                old(self).instructions@.take(old(self).index as int),
            ),
        ensures
            final(self).instructions == old(self).instructions,
            final(self).rootfs == old(self).rootfs,
            final(self).phase == old(self).phase,
            Self::same_order(*old(self), *final(self)),
            final(self).index == next_outside(old(self).instructions@, old(self).index as int),
            final(self).index <= final(self).instructions@.len(),
            final(self).index < final(self).instructions@.len() ==> is_outside(
                final(self).instructions@[final(self).index as int],
            ),
            final(self).config@ == config_of(
                final(self).instructions@.take(final(self).index as int),
            ),
    {
        let ghost before = *self;
        let ghost list = self.instructions@;
        let mut stop = false;
        while !stop && self.index < self.instructions.len()
            invariant
                self.index <= list.len(),
                self.instructions@ == list,
                self.instructions == before.instructions,
                self.rootfs == before.rootfs,
                self.phase == before.phase,
                Self::same_order(before, *self),
                self.config@ == config_of(list.take(self.index as int)),
                next_outside(list, self.index as int) == next_outside(list, before.index as int),
                stop ==> self.index < list.len() && is_outside(list[self.index as int]),
            decreases list.len() - self.index,
                if stop {
                    0int
                } else {
                    1int
                },
        {
            match &self.instructions[self.index] {
                Instruction::From { .. } | Instruction::Run { .. } | Instruction::Copy { .. } => {
                    stop = true;
                },
                other => {
                    let ghost k = self.index as int;
                    self.config.apply(other);
                    self.index = self.index + 1;
                    assert(list.take(k + 1).drop_last() =~= list.take(k));
                    assert(list.take(k + 1).last() == list[k]);
                },
            }
        }
    }

    /// Goes on at the current instruction.
    fn resume(&mut self) -> (r: BuildStep)
        requires
            old(self).index <= old(self).instructions@.len(),
            old(self).config@ == config_of(
                old(self).instructions@.take(old(self).index as int),
            ),
        ensures
            Self::resumes(
                *old(self),
                old(self).instructions,
                old(self).index as int,
                text_view(old(self).rootfs),
                *final(self),
                r,
            ),
            final(self).wf(),
    {
        self.absorb();
        let ghost list = self.instructions@;
        if self.index >= self.instructions.len() {
            assert(list.take(self.index as int) =~= list);
            return match &self.rootfs {
                Some(path) => {
                    let action = BuildAction::Finalize {
                        rootfs: path.clone(),
                        image_name: self.image_name.clone(),
                        config: self.config.duplicate(),
                    };
                    self.phase = BuildPhase::Finalize;
                    Step::Do(action)
                },
                None => {
                    self.phase = BuildPhase::Finished;
                    fail_plain(ErrorKind::Execution, "No FROM instruction found")
                },
            };
        }
        match (&self.instructions[self.index], &self.rootfs) {
            (Instruction::From { image }, _) => {
                let action = BuildAction::From { image: image.clone() };
                self.phase = BuildPhase::From;
                Step::Do(action)
            },
            (Instruction::Run { command }, Some(path)) => {
                let action = BuildAction::Run { rootfs: path.clone(), command: command.clone() };
                self.phase = BuildPhase::Run;
                Step::Do(action)
            },
            (Instruction::Run { .. }, None) => {
                self.phase = BuildPhase::Finished;
                fail_plain(ErrorKind::Execution, "RUN instruction without FROM")
            },
            (Instruction::Copy { src, dst }, Some(path)) => {
                let action = BuildAction::Copy {
                    rootfs: path.clone(),
                    context_dir: self.context_dir.clone(),
                    src: src.clone(),
                    dst: dst.clone(),
                };
                self.phase = BuildPhase::Copy;
                Step::Do(action)
            },
            (Instruction::Copy { .. }, None) => {
                self.phase = BuildPhase::Finished;
                fail_plain(ErrorKind::Execution, "COPY instruction without FROM")
            },
            _ => Step::Unexpected,
        }
    }

    /// Leaves the instruction that has been carried out behind.
    fn advance(&mut self) -> (r: BuildStep)
        requires
            old(self).wf(),
            old(self).index < old(self).instructions@.len(),
            is_outside(old(self).instructions@[old(self).index as int]),
        ensures
            Self::resumes(
                *old(self),
                old(self).instructions,
                old(self).index + 1,
                text_view(old(self).rootfs),
                *final(self),
                r,
            ),
            final(self).wf(),
    {
        proof {
            let list = self.instructions@;
            let k = self.index as int;
            assert(list.take(k + 1).drop_last() =~= list.take(k));
            assert(list.take(k + 1).last() == list[k]);
        }
        let size = self.instructions.len();
        assert(self.index < size);
        self.index = self.index + 1;
        self.resume()
    }

    /// Takes the outcome of the last action and says what to do next.
    pub fn step(&mut self, event: BuildEvent) -> (r: BuildStep)
        requires
            old(self).wf(),
        ensures
            Self::transition(*old(self), event, *final(self), r),
            final(self).wf(),
    {
        match (self.phase, event) {
            (BuildPhase::Begin, BuildEvent::Start) => {
                self.phase = BuildPhase::Parse;
                Step::Do(BuildAction::Parse { path: self.file.clone() })
            },
            (BuildPhase::Parse, BuildEvent::Parsed(Ok(file))) => {
                self.instructions = file.instructions;
                self.index = 0;
                self.rootfs = None;
                self.config = OciImageConfig::for_build();
                assert(self.instructions@.take(0) =~= Seq::<Instruction>::empty());
                self.resume()
            },
            (BuildPhase::Parse, BuildEvent::Parsed(Err(e))) => {
                self.phase = BuildPhase::Finished;
                Step::Return(Err(BuildError::new(ErrorKind::Parse, e)))
            },
            (BuildPhase::From, BuildEvent::Rootfs(Ok(path))) | (
                BuildPhase::Run,
                BuildEvent::Rootfs(Ok(path)),
            ) => {
                self.rootfs = Some(path);
                self.advance()
            },
            (BuildPhase::From, BuildEvent::Rootfs(Err(e))) | (
                BuildPhase::Run,
                BuildEvent::Rootfs(Err(e)),
            ) => {
                self.phase = BuildPhase::Finished;
                Step::Return(Err(e))
            },
            (BuildPhase::Copy, BuildEvent::Copied(Ok(_))) => self.advance(),
            (BuildPhase::Copy, BuildEvent::Copied(Err(e))) => {
                self.phase = BuildPhase::Finished;
                Step::Return(Err(e))
            },
            (BuildPhase::Finalize, BuildEvent::Built(result)) => {
                self.phase = BuildPhase::Finished;
                Step::Return(result)
            },
            _ => Step::Unexpected,
        }
    }
}

impl BuildRunner {
    /// Begins a build of the image `image_name` from the instruction file at `vyomafile_path`,
    /// with the files of `context_dir`.
    pub fn build(&self, vyomafile_path: &str, context_dir: &str, image_name: &str) -> (r: BuildFlow)
        ensures
            r.wf(),
            r.file@ == vyomafile_path@,
            r.context_dir@ == context_dir@,
            r.image_name@ == image_name@,
            r.phase == BuildPhase::Begin,
    {
        let instructions: Vec<Instruction> = Vec::new();
        assert(instructions@.take(0) =~= Seq::<Instruction>::empty());
        BuildFlow {
            file: owned(vyomafile_path),
            context_dir: owned(context_dir),
            image_name: owned(image_name),
            instructions,
            index: 0,
            rootfs: None,
            config: OciImageConfig::for_build(),
            phase: BuildPhase::Begin,
        }
    }
}

/// The steps of a build.
pub open spec fn build_next() -> spec_fn(BuildFlow, BuildEvent, BuildFlow, BuildStep) -> bool {
    |pre: BuildFlow, event: BuildEvent, post: BuildFlow, step: BuildStep|
        BuildFlow::transition(pre, event, post, step)
}

/// A run of a build from its beginning.
pub open spec fn build_run(
    states: Seq<BuildFlow>,
    events: Seq<BuildEvent>,
    steps: Seq<BuildStep>,
) -> bool {
    is_run(build_next(), states, events, steps) && states[0].phase == BuildPhase::Begin
}

/// The file was parsed into these instructions.
pub open spec fn parses(
    flow: BuildFlow,
    event: BuildEvent,
    instructions: Seq<Instruction>,
) -> bool {
    flow.phase == BuildPhase::Parse && (event matches BuildEvent::Parsed(Ok(file))
        && file.instructions@ == instructions)
}

/// The build took over the root file system of a base image or a command.
pub open spec fn takes_rootfs(flow: BuildFlow, event: BuildEvent) -> bool {
    (flow.phase == BuildPhase::From || flow.phase == BuildPhase::Run) && (
    event matches BuildEvent::Rootfs(Ok(_)))
}

/// At `r` the build took over the root file system at `path`, and no other after that.
pub open spec fn last_rootfs(
    states: Seq<BuildFlow>,
    events: Seq<BuildEvent>,
    r: int,
    path: Seq<char>,
) -> bool {
    &&& 0 <= r < events.len()
    &&& takes_rootfs(states[r], events[r])
    &&& events[r] matches BuildEvent::Rootfs(Ok(taken)) && taken@ == path
    &&& forall|j: int| r < j < events.len() ==> !takes_rootfs(states[j], #[trigger] events[j])
}

/// The phases in which the instructions are being carried out.
spec fn under_way(phase: BuildPhase) -> bool {
    phase == BuildPhase::From || phase == BuildPhase::Run || phase == BuildPhase::Copy || phase
        == BuildPhase::Finalize
}

proof fn lemma_build(states: Seq<BuildFlow>, events: Seq<BuildEvent>, steps: Seq<BuildStep>)
    requires
        build_run(states, events, steps),
    ensures
        ({
            let flow = states.last();
            &&& flow.image_name == states[0].image_name
            &&& under_way(flow.phase) ==> exists|p: int|
                0 <= p < events.len() && parses(
                    states[p],
                    #[trigger] events[p],
                    flow.instructions@,
                )
            &&& under_way(flow.phase) ==> (flow.rootfs matches Some(path) ==> exists|r: int|
                #[trigger]
                last_rootfs(states, events, r, path@))
        }),
    decreases steps.len(),
{
    if steps.len() > 0 {
        lemma_shorter_run(build_next(), states, events, steps);
        let s = states.drop_last();
        let e = events.drop_last();
        let n = steps.len() - 1;
        let pre = s.last();
        let flow = states.last();
        lemma_build(s, e, steps.drop_last());
        if under_way(flow.phase) {
            let list = flow.instructions@;
            if under_way(pre.phase) {
                let p = choose|p: int| 0 <= p < e.len() && parses(s[p], #[trigger] e[p], list);
                assert(parses(states[p], events[p], list));
            } else {
                assert(parses(states[n], events[n], list));
            }
            match flow.rootfs {
                Some(path) => {
                    if takes_rootfs(states[n], events[n]) {
                        assert(last_rootfs(states, events, n, path@));
                    } else {
                        let r = choose|r: int| #[trigger] last_rootfs(s, e, r, path@);
                        assert forall|j: int| r < j < events.len() implies !takes_rootfs(
                            states[j],
                            #[trigger] events[j],
                        ) by {
                            if j < n {
                                assert(e[j] == events[j]);
                            }
                        }
                        assert(last_rootfs(states, events, r, path@));
                    }
                },
                None => {},
            }
        }
    }
}

/// A build that reaches its end hands over exactly the configuration that all the instructions of
/// the parsed file ask for, the root file system that it was given last, and the name that it was
/// asked for.
pub proof fn finished_build_carries_all_instructions(
    states: Seq<BuildFlow>,
    events: Seq<BuildEvent>,
    steps: Seq<BuildStep>,
    at: int,
    rootfs: String,
    image_name: String,
    config: OciImageConfig,
)
    requires
        build_run(states, events, steps),
        0 <= at < steps.len(),
        steps[at] == BuildStep::Do(BuildAction::Finalize { rootfs, image_name, config }),
    ensures
        exists|p: int|
            0 <= p <= at && parses(states[p], #[trigger] events[p], states[at + 1].instructions@),
        config@ == config_of(states[at + 1].instructions@),
        exists|r: int| #[trigger]
            last_rootfs(states.take(at + 2), events.take(at + 1), r, rootfs@),
        image_name@ == states[0].image_name@,
{
    let s = states.take(at + 2);
    let e = events.take(at + 1);
    lemma_first_steps(build_next(), states, events, steps, at);
    lemma_build(states.take(at + 1), events.take(at), steps.take(at));
    lemma_first_steps(build_next(), states, events, steps, at + 1);
    lemma_build(s, e, steps.take(at + 1));
    let list = states[at + 1].instructions@;
    let p = choose|p: int| 0 <= p < e.len() && parses(s[p], #[trigger] e[p], list);
    assert(parses(states[p], events[p], list));
}

/// Every command runs on the root file system that the build took over last, and so every file is
/// copied into that one.
pub proof fn work_is_done_on_the_last_rootfs(
    states: Seq<BuildFlow>,
    events: Seq<BuildEvent>,
    steps: Seq<BuildStep>,
    at: int,
)
    requires
        build_run(states, events, steps),
        0 <= at < steps.len(),
    ensures
        steps[at] matches Step::Do(BuildAction::Run { rootfs, .. }) ==> exists|r: int| #[trigger]
            last_rootfs(states.take(at + 2), events.take(at + 1), r, rootfs@),
        steps[at] matches Step::Do(BuildAction::Copy { rootfs, .. }) ==> exists|r: int| #[trigger]
            last_rootfs(states.take(at + 2), events.take(at + 1), r, rootfs@),
{
    lemma_first_steps(build_next(), states, events, steps, at);
    lemma_first_steps(build_next(), states, events, steps, at + 1);
    lemma_build(states.take(at + 2), events.take(at + 1), steps.take(at + 1));
}

/// The outcome of an action is an error.
pub open spec fn reports_error(flow: BuildFlow, event: BuildEvent) -> bool {
    match (flow.phase, event) {
        (BuildPhase::Parse, BuildEvent::Parsed(Err(_))) => true,
        (BuildPhase::From | BuildPhase::Run, BuildEvent::Rootfs(Err(_))) => true,
        (BuildPhase::Copy, BuildEvent::Copied(Err(_))) => true,
        (BuildPhase::Finalize, BuildEvent::Built(Err(_))) => true,
        _ => false,
    }
}

/// The answer returns the error that the event reports.
pub open spec fn passes_error_on(event: BuildEvent, step: BuildStep) -> bool {
    match event {
        BuildEvent::Parsed(Err(e)) => failed(step, ErrorKind::Parse, e@),
        BuildEvent::Rootfs(Err(e)) => step == BuildStep::Return(Err(e)),
        BuildEvent::Copied(Err(e)) => step == BuildStep::Return(Err(e)),
        BuildEvent::Built(Err(e)) => step == BuildStep::Return(Err(e)),
        _ => false,
    }
}

/// The first error ends a build with that error, and nothing follows: whatever happens after a build
/// has returned, it asks for nothing, returns nothing and does not change.
pub proof fn nothing_follows_the_first_error(
    states: Seq<BuildFlow>,
    events: Seq<BuildEvent>,
    steps: Seq<BuildStep>,
    at: int,
)
    requires
        build_run(states, events, steps),
        0 <= at < steps.len(),
        reports_error(states[at], events[at]) || steps[at] is Return,
    ensures
        reports_error(states[at], events[at]) ==> passes_error_on(events[at], steps[at]),
        forall|j: int|
            at < j < steps.len() ==> #[trigger] steps[j] is Unexpected && states[j + 1]
                == states[at + 1],
{
    lemma_first_steps(build_next(), states, events, steps, at);
    assert(states[at + 1].phase == BuildPhase::Finished);
    assert forall|j: int| at < j < steps.len() implies #[trigger] steps[j] is Unexpected && states[j
        + 1] == states[at + 1] by {
        lemma_finished(states, events, steps, at + 1, j);
        lemma_first_steps(build_next(), states, events, steps, j);
    }
}

proof fn lemma_finished(
    states: Seq<BuildFlow>,
    events: Seq<BuildEvent>,
    steps: Seq<BuildStep>,
    i: int,
    j: int,
)
    requires
        is_run(build_next(), states, events, steps),
        0 <= i <= j <= steps.len(),
        states[i].phase == BuildPhase::Finished,
    ensures
        states[j] == states[i],
    decreases j - i,
{
    if i < j {
        lemma_finished(states, events, steps, i, j - 1);
        lemma_first_steps(build_next(), states, events, steps, j - 1);
    }
}

/// The two errors are of the same kind and have the same text.
pub open spec fn same_error(a: BuildError, b: BuildError) -> bool {
    match (a, b) {
        (BuildError::ParseError(m), BuildError::ParseError(n)) => m@ == n@,
        (BuildError::ExecutionError(m), BuildError::ExecutionError(n)) => m@ == n@,
        (BuildError::VmError(m), BuildError::VmError(n)) => m@ == n@,
        (BuildError::InjectionError(m), BuildError::InjectionError(n)) => m@ == n@,
        (BuildError::IoError(m), BuildError::IoError(n)) => m@ == n@,
        _ => false,
    }
}

/// The two actions are the same.
pub open spec fn same_action(a: BuildAction, b: BuildAction) -> bool {
    match (a, b) {
        (BuildAction::Parse { path: p }, BuildAction::Parse { path: q }) => p@ == q@,
        (BuildAction::From { image: i }, BuildAction::From { image: k }) => i@ == k@,
        (
            BuildAction::Run { rootfs: r, command: c },
            BuildAction::Run { rootfs: s, command: d },
        ) => r@ == s@ && c@ == d@,
        (
            BuildAction::Copy { rootfs: r, context_dir: c, src: f, dst: t },
            BuildAction::Copy { rootfs: s, context_dir: d, src: g, dst: u },
        ) => r@ == s@ && c@ == d@ && f@ == g@ && t@ == u@,
        (
            BuildAction::Finalize { rootfs: r, image_name: i, config: c },
            BuildAction::Finalize { rootfs: s, image_name: k, config: d },
        ) => r@ == s@ && i@ == k@ && c@ == d@,
        _ => false,
    }
}

/// The two answers are the same.
pub open spec fn same_answer(a: BuildStep, b: BuildStep) -> bool {
    match (a, b) {
        (Step::Do(x), Step::Do(y)) => same_action(x, y),
        (Step::Return(Ok(x)), Step::Return(Ok(y))) => x == y,
        (Step::Return(Err(x)), Step::Return(Err(y))) => same_error(x, y),
        (Step::Unexpected, Step::Unexpected) => true,
        _ => false,
    }
}

/// The two events are the same, but for requests for a measured boot in a parsed file.
pub open spec fn same_but_for_requests(a: BuildEvent, b: BuildEvent) -> bool {
    match (a, b) {
        (BuildEvent::Parsed(Ok(f)), BuildEvent::Parsed(Ok(g))) => without_requests(f.instructions@)
            == without_requests(g.instructions@),
        _ => a == b,
    }
}

/// From these two positions on, the lists differ in requests for a measured boot alone, and so far
/// they ask for the same configuration.
spec fn twin_positions(a: Seq<Instruction>, i: int, b: Seq<Instruction>, j: int) -> bool {
    &&& 0 <= i <= a.len()
    &&& 0 <= j <= b.len()
    &&& without_requests(a.skip(i)) == without_requests(b.skip(j))
    &&& config_of(a.take(i)) == config_of(b.take(j))
}

/// Two builds that go on in the same way, whatever requests for a measured boot they meet.
spec fn twins(f: BuildFlow, g: BuildFlow) -> bool {
    &&& f.phase == g.phase
    &&& BuildFlow::same_order(f, g)
    &&& f.phase == BuildPhase::From || f.phase == BuildPhase::Run || f.phase == BuildPhase::Copy
        ==> {
        &&& twin_positions(f.instructions@, f.index + 1, g.instructions@, g.index + 1)
        &&& text_view(f.rootfs) == text_view(g.rootfs)
    }
}

proof fn lemma_position(a: Seq<Instruction>, i: int)
    requires
        0 <= i < a.len(),
    ensures
        a.skip(i)[0] == a[i],
        a.skip(i).drop_first() == a.skip(i + 1),
        a.take(i + 1).drop_last() == a.take(i),
        a.take(i + 1).last() == a[i],
{
    assert(a.skip(i).drop_first() =~= a.skip(i + 1));
    assert(a.take(i + 1).drop_last() =~= a.take(i));
}

proof fn lemma_twin_step(a: Seq<Instruction>, i: int, b: Seq<Instruction>, j: int)
    requires
        twin_positions(a, i, b, j),
        i < a.len() ==> !(a[i] is VmMeasuredBoot),
        j < b.len() ==> !(b[j] is VmMeasuredBoot),
    ensures
        i < a.len() <==> j < b.len(),
        i < a.len() ==> a[i] == b[j] && twin_positions(a, i + 1, b, j + 1),
{
    if i < a.len() {
        lemma_position(a, i);
        assert(without_requests(a.skip(i))[0] == a[i]);
    }
    if j < b.len() {
        lemma_position(b, j);
        assert(without_requests(b.skip(j))[0] == b[j]);
    }
    if i < a.len() && j < b.len() {
        let x = without_requests(a.skip(i + 1));
        let y = without_requests(b.skip(j + 1));
        assert(x =~= (seq![a[i]] + x).drop_first());
        assert(y =~= (seq![b[j]] + y).drop_first());
    }
}

proof fn lemma_twin_outside(a: Seq<Instruction>, i: int, b: Seq<Instruction>, j: int)
    requires
        twin_positions(a, i, b, j),
    ensures
        ({
            let m = next_outside(a, i);
            let n = next_outside(b, j);
            &&& twin_positions(a, m, b, n)
            &&& m < a.len() <==> n < b.len()
            &&& m < a.len() ==> a[m] == b[n] && twin_positions(a, m + 1, b, n + 1)
        }),
    decreases a.len() - i + b.len() - j,
{
    if i < a.len() && a[i] is VmMeasuredBoot {
        lemma_position(a, i);
        lemma_twin_outside(a, i + 1, b, j);
    } else if j < b.len() && b[j] is VmMeasuredBoot {
        lemma_position(b, j);
        lemma_twin_outside(a, i, b, j + 1);
    } else {
        lemma_twin_step(a, i, b, j);
        if i < a.len() && !is_outside(a[i]) {
            lemma_twin_outside(a, i + 1, b, j + 1);
        }
    }
}

proof fn lemma_twin_resumes(
    f: BuildFlow,
    a: Vec<Instruction>,
    i: int,
    g: BuildFlow,
    b: Vec<Instruction>,
    j: int,
    rootfs: Option<Seq<char>>,
    f_post: BuildFlow,
    f_step: BuildStep,
    g_post: BuildFlow,
    g_step: BuildStep,
)
    requires
        twin_positions(a@, i, b@, j),
        BuildFlow::same_order(f, g),
        BuildFlow::resumes(f, a, i, rootfs, f_post, f_step),
        BuildFlow::resumes(g, b, j, rootfs, g_post, g_step),
    ensures
        twins(f_post, g_post),
        same_answer(f_step, g_step),
{
    lemma_twin_outside(a@, i, b@, j);
    let m = next_outside(a@, i);
    let n = next_outside(b@, j);
    if m >= a@.len() {
        assert(a@.take(m) =~= a@);
        assert(b@.take(n) =~= b@);
    }
}

proof fn lemma_twin_transition(
    f: BuildFlow,
    f_event: BuildEvent,
    f_post: BuildFlow,
    f_step: BuildStep,
    g: BuildFlow,
    g_event: BuildEvent,
    g_post: BuildFlow,
    g_step: BuildStep,
)
    requires
        twins(f, g),
        same_but_for_requests(f_event, g_event),
        BuildFlow::transition(f, f_event, f_post, f_step),
        BuildFlow::transition(g, g_event, g_post, g_step),
    ensures
        twins(f_post, g_post),
        same_answer(f_step, g_step),
{
    match (f.phase, f_event) {
        (BuildPhase::Parse, BuildEvent::Parsed(Ok(file))) => {
            match g_event {
                BuildEvent::Parsed(Ok(other)) => {
                    let a = file.instructions;
                    let b = other.instructions;
                    assert(a@.skip(0) =~= a@);
                    assert(b@.skip(0) =~= b@);
                    assert(a@.take(0) =~= b@.take(0));
                    lemma_twin_resumes(f, a, 0, g, b, 0, None, f_post, f_step, g_post, g_step);
                },
                _ => {},
            }
        },
        (BuildPhase::From | BuildPhase::Run, BuildEvent::Rootfs(Ok(path))) => {
            lemma_twin_resumes(
                f,
                f.instructions,
                f.index + 1,
                g,
                g.instructions,
                g.index + 1,
                Some(path@),
                f_post,
                f_step,
                g_post,
                g_step,
            );
        },
        (BuildPhase::Copy, BuildEvent::Copied(Ok(_))) => {
            lemma_twin_resumes(
                f,
                f.instructions,
                f.index + 1,
                g,
                g.instructions,
                g.index + 1,
                text_view(f.rootfs),
                f_post,
                f_step,
                g_post,
                g_step,
            );
        },
        _ => {},
    }
}

proof fn lemma_twin_runs(
    states: Seq<BuildFlow>,
    events: Seq<BuildEvent>,
    steps: Seq<BuildStep>,
    others: Seq<BuildFlow>,
    other_events: Seq<BuildEvent>,
    other_steps: Seq<BuildStep>,
    n: int,
)
    requires
        build_run(states, events, steps),
        build_run(others, other_events, other_steps),
        others[0] == states[0],
        events.len() == other_events.len(),
        forall|i: int|
            0 <= i < events.len() ==> same_but_for_requests(
                #[trigger] events[i],
                other_events[i],
            ),
        0 <= n <= steps.len(),
    ensures
        twins(states[n], others[n]),
        n > 0 ==> same_answer(steps[n - 1], other_steps[n - 1]),
    decreases n,
{
    if n > 0 {
        let i = n - 1;
        lemma_twin_runs(states, events, steps, others, other_events, other_steps, i);
        lemma_first_steps(build_next(), states, events, steps, i);
        lemma_first_steps(build_next(), others, other_events, other_steps, i);
        assert(same_but_for_requests(events[i], other_events[i]));
        lemma_twin_transition(
            states[i],
            events[i],
            states[n],
            steps[i],
            others[i],
            other_events[i],
            others[n],
            other_steps[i],
        );
    }
}

/// A request for a measured boot changes no answer: two builds that begin in the same way, and meet
/// the same events but for such requests in the parsed file, answer in the same way all along.
pub proof fn measured_boot_request_changes_nothing(
    states: Seq<BuildFlow>,
    events: Seq<BuildEvent>,
    steps: Seq<BuildStep>,
    others: Seq<BuildFlow>,
    other_events: Seq<BuildEvent>,
    other_steps: Seq<BuildStep>,
)
    requires
        build_run(states, events, steps),
        build_run(others, other_events, other_steps),
        others[0] == states[0],
        events.len() == other_events.len(),
        forall|i: int|
            0 <= i < events.len() ==> same_but_for_requests(
                #[trigger] events[i],
                other_events[i],
            ),
    ensures
        forall|i: int| 0 <= i < steps.len() ==> same_answer(#[trigger] steps[i], other_steps[i]),
{
    assert forall|i: int| 0 <= i < steps.len() implies same_answer(
        #[trigger] steps[i],
        other_steps[i],
    ) by {
        lemma_twin_runs(states, events, steps, others, other_events, other_steps, i + 1);
    }
}

proof fn lemma_next_outside(instructions: Seq<Instruction>, from: int)
    requires
        0 <= from <= instructions.len(),
    ensures
        from <= next_outside(instructions, from) <= instructions.len(),
        next_outside(instructions, from) < instructions.len() ==> is_outside(
            instructions[next_outside(instructions, from)],
        ),
        forall|i: int|
            from <= i < next_outside(instructions, from) ==> !is_outside(
                #[trigger] instructions[i],
            ),
    decreases instructions.len() - from,
{
    if from < instructions.len() && !is_outside(instructions[from]) {
        lemma_next_outside(instructions, from + 1);
    }
}

/// A file whose first instruction that needs work outside is not `FROM` is refused before any
/// work is done, and so is one without `FROM`.
pub proof fn build_needs_from_first(
    pre: BuildFlow,
    file: Vyomafile,
    post: BuildFlow,
    step: BuildStep,
)
    requires
        pre.phase == BuildPhase::Parse,
        BuildFlow::transition(pre, BuildEvent::Parsed(Ok(file)), post, step),
    ensures
        (step is Do) <==> exists|i: int|
            0 <= i < file.instructions@.len() && #[trigger] file.instructions@[i] is From && forall|
                j: int,
            |
                0 <= j < i ==> !is_outside(#[trigger] file.instructions@[j]),
        step is Do ==> step matches Step::Do(BuildAction::From { .. }),
        !(step is Do) ==> step matches Step::Return(Err(BuildError::ExecutionError(_))),
{
    let list = file.instructions@;
    lemma_next_outside(list, 0);
    let at = next_outside(list, 0);
    if step is Do {
        assert(list[at] is From);
    }
    if exists|i: int|
        0 <= i < list.len() && #[trigger] list[i] is From && forall|j: int|
            0 <= j < i ==> !is_outside(#[trigger] list[j]) {
        let i = choose|i: int|
            0 <= i < list.len() && #[trigger] list[i] is From && forall|j: int|
                0 <= j < i ==> !is_outside(#[trigger] list[j]);
        if at < i {
            assert(!is_outside(list[at]));
        } else if i < at {
            assert(!is_outside(list[i]));
        }
    }
}

} // verus!
