//! What a build does with the instructions of its file.
use vstd::prelude::*;
use crate::build::engine::{
    build_next, build_run, parses, BuildAction, BuildEvent, BuildFlow, BuildPhase, BuildStep,
};
use crate::build::instruction::{config_of, next_outside, Instruction};
use crate::flow::{lemma_first_steps, lemma_shorter_run, Step};
use crate::image::text_view;
use crate::laws::ends::execution_error;
use crate::text::texts;

verus! {

/// The instructions that need work outside, in the order of the file.
pub open spec fn work_of(instructions: Seq<Instruction>) -> Seq<Instruction>
    decreases instructions.len(),
{
    if instructions.len() == 0 {
        Seq::empty()
    } else {
        let before = work_of(instructions.drop_last());
        match instructions.last() {
            Instruction::From { .. } => before.push(instructions.last()),
            Instruction::Run { .. } => before.push(instructions.last()),
            Instruction::Copy { .. } => before.push(instructions.last()),
            _ => before,
        }
    }
}

/// The work that a run has asked for, in order.
pub open spec fn work_asked(steps: Seq<BuildStep>) -> Seq<BuildAction>
    decreases steps.len(),
{
    if steps.len() == 0 {
        Seq::empty()
    } else {
        let before = work_asked(steps.drop_last());
        match steps.last() {
            Step::Do(BuildAction::From { image }) => before.push(BuildAction::From { image }),
            Step::Do(BuildAction::Run { rootfs, command }) => before.push(
                BuildAction::Run { rootfs, command },
            ),
            Step::Do(BuildAction::Copy { rootfs, context_dir, src, dst }) => before.push(
                BuildAction::Copy { rootfs, context_dir, src, dst },
            ),
            _ => before,
        }
    }
}

/// The action is what the instruction asks for, with the files of `context`.
pub open spec fn carries_out(
    action: BuildAction,
    instruction: Instruction,
    context: Seq<char>,
) -> bool {
    match (instruction, action) {
        (Instruction::From { image }, BuildAction::From { image: i }) => i@ == image@,
        (Instruction::Run { command }, BuildAction::Run { command: c, .. }) => c@ == command@,
        (
            Instruction::Copy { src, dst },
            BuildAction::Copy { context_dir, src: s, dst: d, .. },
        ) => context_dir@ == context && s@ == src@ && d@ == dst@,
        _ => false,
    }
}

/// The first of these actions carry out the instructions, one each, in order.
pub open spec fn carries_out_all(
    actions: Seq<BuildAction>,
    instructions: Seq<Instruction>,
    context: Seq<char>,
) -> bool {
    &&& actions.len() == instructions.len()
    &&& forall|k: int|
        0 <= k < actions.len() ==> carries_out(#[trigger] actions[k], instructions[k], context)
}

proof fn lemma_no_work_between(instructions: Seq<Instruction>, from: int)
    requires
        0 <= from <= instructions.len(),
    ensures
        from <= next_outside(instructions, from) <= instructions.len(),
        work_of(instructions.take(next_outside(instructions, from))) == work_of(
            instructions.take(from),
        ),
    decreases instructions.len() - from,
{
    if from < instructions.len() && next_outside(instructions, from) != from {
        let t = instructions.take(from + 1);
        assert(t.drop_last() =~= instructions.take(from));
        assert(t.last() == instructions[from]);
        lemma_no_work_between(instructions, from + 1);
    } else if from == instructions.len() {
    }
}

/// The phases in which an instruction is being carried out.
spec fn at_work(phase: BuildPhase) -> bool {
    phase == BuildPhase::From || phase == BuildPhase::Run || phase == BuildPhase::Copy
}

/// What has been asked for when a build is in a phase.
spec fn asked_so_far(flow: BuildFlow, steps: Seq<BuildStep>, context: Seq<char>) -> bool {
    let list = flow.instructions@;
    let asked = work_asked(steps);
    &&& flow.phase == BuildPhase::Begin || flow.phase == BuildPhase::Parse ==> asked.len() == 0
    &&& at_work(flow.phase) ==> flow.index < list.len() && carries_out_all(
        asked,
        work_of(list.take(flow.index + 1)),
        context,
    )
    &&& flow.phase == BuildPhase::Finalize ==> carries_out_all(asked, work_of(list), context)
}

proof fn lemma_resumed(
    pre: BuildFlow,
    from: int,
    rootfs: Option<Seq<char>>,
    post: BuildFlow,
    steps: Seq<BuildStep>,
    context: Seq<char>,
)
    requires
        steps.len() > 0,
        0 <= from <= post.instructions@.len(),
        BuildFlow::resumes(pre, post.instructions, from, rootfs, post, steps.last()),
        carries_out_all(
            work_asked(steps.drop_last()),
            work_of(post.instructions@.take(from)),
            context,
        ),
        pre.context_dir@ == context,
    ensures
        asked_so_far(post, steps, context),
{
    let list = post.instructions@;
    let at = next_outside(list, from);
    lemma_no_work_between(list, from);
    let before = work_asked(steps.drop_last());
    let asked = work_asked(steps);
    let done = work_of(list.take(at));
    assert(carries_out_all(before, done, context));
    if at >= list.len() {
        assert(list.take(at) =~= list);
    } else {
        let t = list.take(at + 1);
        assert(t.drop_last() =~= list.take(at));
        assert(t.last() == list[at]);
        if at_work(post.phase) {
            let now = work_of(t);
            assert(now =~= done.push(list[at]));
            assert forall|k: int| 0 <= k < asked.len() implies carries_out(
                #[trigger] asked[k],
                now[k],
                context,
            ) by {
                if k < before.len() {
                    assert(asked[k] == before[k]);
                    assert(now[k] == done[k]);
                }
            }
        }
    }
}

proof fn lemma_asked(states: Seq<BuildFlow>, events: Seq<BuildEvent>, steps: Seq<BuildStep>)
    requires
        build_run(states, events, steps),
    ensures
        states.last().context_dir == states[0].context_dir,
        states.last().file == states[0].file,
        asked_so_far(states.last(), steps, states[0].context_dir@),
    decreases steps.len(),
{
    if steps.len() > 0 {
        lemma_shorter_run(build_next(), states, events, steps);
        let s = states.drop_last();
        let t = steps.drop_last();
        lemma_asked(s, events.drop_last(), t);
        let pre = s.last();
        let post = states.last();
        let context = states[0].context_dir@;
        match (pre.phase, events.last()) {
            (BuildPhase::Parse, BuildEvent::Parsed(Ok(file))) => {
                assert(post.instructions@.take(0) =~= Seq::<Instruction>::empty());
                assert(carries_out_all(work_asked(t), work_of(post.instructions@.take(0)), context));
                lemma_resumed(pre, 0, None, post, steps, context);
            },
            (BuildPhase::From | BuildPhase::Run, BuildEvent::Rootfs(Ok(path))) => {
                lemma_resumed(pre, pre.index + 1, Some(path@), post, steps, context);
            },
            (BuildPhase::Copy, BuildEvent::Copied(Ok(_))) => {
                lemma_resumed(pre, pre.index + 1, text_view(pre.rootfs), post, steps, context);
            },
            _ => {},
        }
    }
}

/// A build carries out the instructions of the parsed file that need work outside, each once and in the
/// order of the file. `FROM` asks for its image, `RUN` for its command, and `COPY` for its source and
/// destination with the context directory that the build was given. By the time the image is made all
/// of them have been carried out.
pub proof fn instructions_are_carried_out_in_order(
    states: Seq<BuildFlow>,
    events: Seq<BuildEvent>,
    steps: Seq<BuildStep>,
    parsed: int,
)
    requires
        build_run(states, events, steps),
        0 <= parsed < steps.len(),
        states[parsed].phase == BuildPhase::Parse,
        events[parsed] matches BuildEvent::Parsed(Ok(_)),
    ensures
        events[parsed] matches BuildEvent::Parsed(Ok(file)) && {
            let work = work_of(file.instructions@);
            let asked = work_asked(steps);
            &&& asked.len() <= work.len()
            &&& forall|k: int|
                0 <= k < asked.len() ==> carries_out(
                    #[trigger] asked[k],
                    work[k],
                    states[0].context_dir@,
                )
            &&& (exists|i: int|
                0 <= i < steps.len() && (#[trigger] steps[i] matches Step::Do(
                    BuildAction::Finalize { .. },
                ))) ==> asked.len() == work.len()
        },
    decreases steps.len(),
{
    lemma_first_steps(build_next(), states, events, steps, parsed);
    match events[parsed] {
        BuildEvent::Parsed(Ok(file)) => {
            lemma_in_order(states, events, steps, parsed, file.instructions@);
        },
        _ => {},
    }
}

proof fn lemma_work_prefix(list: Seq<Instruction>, n: int)
    requires
        0 <= n <= list.len(),
    ensures
        work_of(list.take(n)).is_prefix_of(work_of(list)),
    decreases list.len(),
{
    if n == list.len() {
        assert(list.take(n) =~= list);
        assert(work_of(list).subrange(0, work_of(list).len() as int) =~= work_of(list));
    } else {
        let init = list.drop_last();
        lemma_work_prefix(init, n);
        assert(init.take(n) =~= list.take(n));
        let a = work_of(list.take(n));
        let b = work_of(init);
        let c = work_of(list);
        assert(a =~= b.subrange(0, a.len() as int));
        assert(a =~= c.subrange(0, a.len() as int)) by {
            assert forall|k: int| 0 <= k < a.len() implies a[k] == c[k] by {
                assert(a[k] == b[k]);
            }
        }
    }
}

/// The answer makes the image.
spec fn makes_image(step: BuildStep) -> bool {
    step matches Step::Do(BuildAction::Finalize { .. })
}

proof fn lemma_in_order(
    states: Seq<BuildFlow>,
    events: Seq<BuildEvent>,
    steps: Seq<BuildStep>,
    parsed: int,
    list: Seq<Instruction>,
)
    requires
        build_run(states, events, steps),
        0 <= parsed < steps.len(),
        states[parsed].phase == BuildPhase::Parse,
        parses(states[parsed], events[parsed], list),
    ensures
        ({
            let work = work_of(list);
            let asked = work_asked(steps);
            let flow = states.last();
            &&& at_work(flow.phase) || flow.phase == BuildPhase::Finalize ==> flow.instructions@
                == list
            &&& at_work(flow.phase) || flow.phase == BuildPhase::Finalize || flow.phase
                == BuildPhase::Finished
            &&& asked.len() <= work.len()
            &&& forall|k: int|
                0 <= k < asked.len() ==> carries_out(
                    #[trigger] asked[k],
                    work[k],
                    states[0].context_dir@,
                )
            &&& (exists|i: int| 0 <= i < steps.len() && makes_image(#[trigger] steps[i]))
                ==> asked.len() == work.len() && !at_work(flow.phase)
        }),
    decreases steps.len(),
{
    lemma_first_steps(build_next(), states, events, steps, parsed);
    lemma_asked(states, events, steps);
    lemma_shorter_run(build_next(), states, events, steps);
    let s = states.drop_last();
    let e = events.drop_last();
    let t = steps.drop_last();
    let n = steps.len() - 1;
    let flow = states.last();
    let work = work_of(list);
    let asked = work_asked(steps);
    let context = states[0].context_dir@;
    if parsed < n {
        assert(e[parsed] == events[parsed]);
        assert(s[parsed] == states[parsed]);
        lemma_in_order(s, e, t, parsed, list);
    } else {
        lemma_asked(s, e, t);
        lemma_no_image(s, e, t);
    }
    assert(at_work(flow.phase) || flow.phase == BuildPhase::Finalize ==> flow.instructions@ == list);
    if at_work(flow.phase) {
        let part = work_of(list.take(flow.index + 1));
        lemma_work_prefix(list, flow.index + 1);
        assert(part =~= work.subrange(0, part.len() as int));
        assert forall|k: int| 0 <= k < asked.len() implies carries_out(
            #[trigger] asked[k],
            work[k],
            context,
        ) by {
            assert(work[k] == part[k]);
        }
    } else if flow.phase == BuildPhase::Finished {
        assert(asked =~= work_asked(t));
    }
    if exists|i: int| 0 <= i < steps.len() && makes_image(#[trigger] steps[i]) {
        let i = choose|i: int| 0 <= i < steps.len() && makes_image(#[trigger] steps[i]);
        if i < n {
            assert(makes_image(t[i]));
            if parsed == n {
                assert(false);
            }
        }
    }
}

proof fn lemma_no_image(states: Seq<BuildFlow>, events: Seq<BuildEvent>, steps: Seq<BuildStep>)
    requires
        build_run(states, events, steps),
        states.last().phase == BuildPhase::Begin || states.last().phase == BuildPhase::Parse,
    ensures
        forall|i: int| 0 <= i < steps.len() ==> !makes_image(#[trigger] steps[i]),
    decreases steps.len(),
{
    if steps.len() > 0 {
        lemma_shorter_run(build_next(), states, events, steps);
        let t = steps.drop_last();
        lemma_no_image(states.drop_last(), events.drop_last(), t);
        assert forall|i: int| 0 <= i < steps.len() implies !makes_image(#[trigger] steps[i]) by {
            if i < t.len() {
                assert(steps[i] == t[i]);
            }
        }
    }
}

proof fn lemma_has_rootfs(states: Seq<BuildFlow>, events: Seq<BuildEvent>, steps: Seq<BuildStep>)
    requires
        build_run(states, events, steps),
    ensures
        states.last().phase == BuildPhase::Copy ==> states.last().rootfs is Some,
    decreases steps.len(),
{
    if steps.len() > 0 {
        lemma_shorter_run(build_next(), states, events, steps);
        lemma_has_rootfs(states.drop_last(), events.drop_last(), steps.drop_last());
    }
}

/// A build begins by parsing the file that it was given. After every piece of work that went well it
/// asks for the next one, or for the image to be made if there is none left; and what comes of that is
/// what it returns.
pub proof fn work_goes_on_to_the_image(
    states: Seq<BuildFlow>,
    events: Seq<BuildEvent>,
    steps: Seq<BuildStep>,
    at: int,
)
    requires
        build_run(states, events, steps),
        0 <= at < steps.len(),
    ensures
        at == 0 && events[0] == BuildEvent::Start ==> (steps[0] matches Step::Do(
            BuildAction::Parse { path },
        ) && path@ == states[0].file@),
        at > 0 && ((steps[at - 1] matches Step::Do(BuildAction::From { .. })) || (
        steps[at - 1] matches Step::Do(BuildAction::Run { .. }))) ==> (
        events[at] matches BuildEvent::Rootfs(Ok(_)) ==> steps[at] is Do),
        at > 0 && (steps[at - 1] matches Step::Do(BuildAction::Copy { .. })) ==> (
        events[at] matches BuildEvent::Copied(Ok(_)) ==> steps[at] is Do),
        at > 0 && (steps[at - 1] matches Step::Do(BuildAction::Finalize { .. })) ==> (
        events[at] matches BuildEvent::Built(result) ==> steps[at] == BuildStep::Return(result)),
        steps[at] matches Step::Do(BuildAction::Parse { .. }) ==> at == 0 || states[at].phase
            == BuildPhase::Begin,
{
    lemma_first_steps(build_next(), states, events, steps, at);
    lemma_has_rootfs(states.take(at + 1), events.take(at), steps.take(at));
    if at > 0 {
        lemma_first_steps(build_next(), states, events, steps, at - 1);
    }
}

/// What each instruction adds to the configuration of the image, and that it leaves the rest alone.
pub proof fn instruction_adds_what_it_says(list: Seq<Instruction>, instruction: Instruction)
    ensures
        ({
            let before = config_of(list);
            let after = config_of(list.push(instruction));
            &&& after.entrypoint == (match instruction {
                Instruction::Entrypoint { args } => Some(texts(args)),
                _ => before.entrypoint,
            })
            &&& after.cmd == (match instruction {
                Instruction::Cmd { args } => Some(texts(args)),
                _ => before.cmd,
            })
            &&& after.working_dir == (match instruction {
                Instruction::Workdir { path } => Some(path@),
                _ => before.working_dir,
            })
            &&& after.env is Some
            &&& before.env is Some
            &&& after.env->0 == (match instruction {
                Instruction::Env { key, value } => before.env->0.push(key@ + "="@ + value@),
                _ => before.env->0,
            })
            &&& after.exposed_ports is None
            &&& after.user is None
        }),
{
    let all = list.push(instruction);
    assert(all.drop_last() =~= list);
    crate::build::instruction::environment_collects_all_entries(list);
    crate::build::instruction::environment_collects_all_entries(all);
    crate::build::instruction::ports_and_user_stay_unset(list);
    crate::build::instruction::ports_and_user_stay_unset(all);
}

/// Without any instruction the configuration is empty but for an environment without entries.
pub proof fn configuration_begins_empty()
    ensures
        ({
            let config = config_of(Seq::<Instruction>::empty());
            &&& config.entrypoint is None
            &&& config.cmd is None
            &&& config.working_dir is None
            &&& config.env == Some(Seq::<Seq<char>>::empty())
            &&& config.exposed_ports is None
            &&& config.user is None
        }),
{
}

proof fn lemma_first_work(list: Seq<Instruction>, from: int)
    requires
        0 <= from <= list.len(),
    ensures
        ({
            let at = next_outside(list, from);
            let done = work_of(list.take(from));
            &&& from <= at <= list.len()
            &&& done.is_prefix_of(work_of(list))
            &&& at == list.len() <==> work_of(list).len() == done.len()
            &&& at < list.len() ==> work_of(list).len() > done.len() && work_of(list)[done.len() as int]
                == list[at]
        }),
{
    let at = next_outside(list, from);
    lemma_no_work_between(list, from);
    lemma_work_prefix(list, from);
    let done = work_of(list.take(from));
    if at < list.len() {
        let t = list.take(at + 1);
        assert(t.drop_last() =~= list.take(at));
        assert(t.last() == list[at]);
        lemma_stops_at_work(list, from);
        assert(work_of(t) =~= done.push(list[at]));
        lemma_work_prefix(list, at + 1);
        assert(work_of(t)[done.len() as int] == list[at]);
        assert(work_of(t) =~= work_of(list).subrange(0, work_of(t).len() as int));
    } else {
        assert(list.take(at) =~= list);
    }
}

proof fn lemma_stops_at_work(list: Seq<Instruction>, from: int)
    requires
        0 <= from <= list.len(),
    ensures
        ({
            let at = next_outside(list, from);
            &&& from <= at <= list.len()
            &&& at < list.len() ==> list[at] is From || list[at] is Run || list[at] is Copy
        }),
    decreases list.len() - from,
{
    if from < list.len() && !(list[from] is From || list[from] is Run || list[from] is Copy) {
        lemma_stops_at_work(list, from + 1);
    }
}

/// The work of a file has to begin with `FROM`, which is asked for first. A file without any work, and
/// one whose work begins with `RUN` or `COPY`, is refused at once.
pub proof fn work_begins_with_from(
    states: Seq<BuildFlow>,
    events: Seq<BuildEvent>,
    steps: Seq<BuildStep>,
    instructions: Seq<Instruction>,
)
    requires
        build_run(states, events, steps),
        steps.len() >= 2,
        events[0] == BuildEvent::Start,
        events[1] matches BuildEvent::Parsed(Ok(file)) && file.instructions@ == instructions,
    ensures
        work_of(instructions).len() == 0 ==> execution_error(
            steps[1],
            "No FROM instruction found"@,
        ),
        work_of(instructions).len() > 0 ==> match work_of(instructions)[0] {
            Instruction::From { image } => steps[1] matches Step::Do(BuildAction::From { image: i })
                && i@ == image@,
            Instruction::Run { .. } => execution_error(steps[1], "RUN instruction without FROM"@),
            Instruction::Copy { .. } => execution_error(steps[1], "COPY instruction without FROM"@),
            _ => true,
        },
{
    lemma_first_steps(build_next(), states, events, steps, 0);
    lemma_first_steps(build_next(), states, events, steps, 1);
    assert(instructions.take(0) =~= Seq::<Instruction>::empty());
    lemma_first_work(instructions, 0);
}

} // verus!
