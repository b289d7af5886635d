//! What the set-up of the slice does, and what the files of a control group say.
use vstd::prelude::*;
use crate::cgroups::{
    cpu_usage, memory_limit, number_in, oom_kills, subtree_control, subtree_requests, CgroupError,
    CgroupInit, InitAction, InitEvent, InitPhase,
};
use crate::flow::{is_run, Step};
use crate::number::read_u64;
use crate::path::joined_path;
use crate::text::{joined, trimmed, words};

verus! {

/// The answer of the set-up to an event.
pub type InitStep = Step<InitAction, (), String>;

/// The steps of the set-up.
pub open spec fn init_next() -> spec_fn(CgroupInit, InitEvent, CgroupInit, InitStep) -> bool {
    |pre: CgroupInit, event: InitEvent, post: CgroupInit, step: InitStep|
        CgroupInit::transition(pre, event, post, step)
}

/// A slice that is missing is created. If that fails the set-up fails with the same error; otherwise
/// it goes on with the controllers of the machine, as it does at once where the slice is there.
pub proof fn missing_slice_is_created(
    states: Seq<CgroupInit>,
    events: Seq<InitEvent>,
    steps: Seq<InitStep>,
)
    requires
        is_run(init_next(), states, events, steps),
        states[0].phase == InitPhase::Begin,
        steps.len() >= 3,
        events[0] == InitEvent::Start,
    ensures
        steps[0] matches Step::Do(InitAction::Probe { path }) && path@ == states[0].root@,
        events[1] == InitEvent::Probed(true) ==> (steps[1] matches Step::Do(
            InitAction::Read { path },
        ) && path@ == "/sys/fs/cgroup/cgroup.controllers"@),
        events[1] == InitEvent::Probed(false) ==> {
            &&& steps[1] matches Step::Do(InitAction::CreateDir { path }) && path@
                == states[0].root@
            &&& events[2] matches InitEvent::Done(Ok(_)) ==> (steps[2] matches Step::Do(
                InitAction::Read { path },
            ) && path@ == "/sys/fs/cgroup/cgroup.controllers"@)
            &&& events[2] matches InitEvent::Done(Err(e)) ==> steps[2] == InitStep::Return(Err(e))
        },
{
}

/// Those of `cpu`, `memory` and `io` that the machine has are enabled in the slice, in this order and
/// in one write, if the slice takes such requests. Whatever goes wrong with them, the set-up ends
/// well.
pub proof fn available_controllers_are_enabled(
    states: Seq<CgroupInit>,
    events: Seq<InitEvent>,
    steps: Seq<InitStep>,
    available: String,
)
    requires
        is_run(init_next(), states, events, steps),
        states[0].phase == InitPhase::Begin,
        steps.len() >= 5,
        events[0] == InitEvent::Start,
        events[1] == InitEvent::Probed(true),
        events[2] == InitEvent::Text(Ok(available)) || ((events[2] matches InitEvent::Text(Err(_)))
            && available@ == Seq::<char>::empty()),
    ensures
        ({
            let list = words(available@);
            let some = list.contains("cpu"@) || list.contains("memory"@) || list.contains("io"@);
            let cpu = if list.contains("cpu"@) {
                seq!["+cpu"@]
            } else {
                seq![]
            };
            let memory = if list.contains("memory"@) {
                seq!["+memory"@]
            } else {
                seq![]
            };
            let io = if list.contains("io"@) {
                seq!["+io"@]
            } else {
                seq![]
            };
            let file = joined_path(states[0].root@, "cgroup.subtree_control"@);
            &&& !some ==> (steps[2] matches Step::Return(Ok(_)))
            &&& some ==> {
                &&& steps[2] matches Step::Do(InitAction::Probe { path }) && path@ == file
                &&& events[3] == InitEvent::Probed(false) ==> (steps[3] matches Step::Return(Ok(_)))
                &&& events[3] == InitEvent::Probed(true) ==> {
                    &&& steps[3] matches Step::Do(InitAction::Write(write)) && write.path@ == file
                        && write.content@ == joined(cpu + memory + io, " "@)
                    &&& events[4] is Done ==> (steps[4] matches Step::Return(Ok(_)))
                }
            }
        }),
{
    reveal_strlit("cpu");
    reveal_strlit("memory");
    reveal_strlit("io");
    reveal_strlit("+");
    reveal_strlit("+cpu");
    reveal_strlit("+memory");
    reveal_strlit("+io");
    reveal_strlit(" ");
    assert("+"@ + "cpu"@ =~= "+cpu"@);
    assert("+"@ + "memory"@ =~= "+memory"@);
    assert("+"@ + "io"@ =~= "+io"@);
    let list = words(available@);
    let requests = subtree_requests(available@);
    assert(subtree_control(available@) == joined(requests, " "@));
    if requests.len() > 0 {
        lemma_joined_not_empty(requests);
    }
}

proof fn lemma_joined_not_empty(parts: Seq<Seq<char>>)
    requires
        parts.len() > 0,
        parts.last().len() > 0,
    ensures
        joined(parts, " "@).len() > 0,
{
}

/// What is read from `memory.current` is the number in it, between white space.
pub proof fn number_stands_between_white_space(content: Seq<char>)
    ensures
        match read_u64(trimmed(content)) {
            Ok(n) => number_in(content) == Ok::<u64, CgroupError>(n),
            Err(e) => number_in(content) == Err::<u64, CgroupError>(CgroupError::Number(e)),
        },
        trimmed(content) == "max"@ ==> memory_limit(content) == Ok::<u64, CgroupError>(0),
        trimmed(content) != "max"@ ==> memory_limit(content) == number_in(content),
{
}

/// Lines that are not about killed processes do not matter to their count, wherever they stand before
/// the one that is; and that one's second word is the count.
pub proof fn first_count_of_kills_decides(before: Seq<Seq<char>>, line: Seq<char>, after: Seq<Seq<char>>)
    requires
        forall|i: int|
            0 <= i < before.len() ==> !"oom_kill "@.is_prefix_of(#[trigger] before[i]) || words(
                before[i],
            ).len() <= 1,
    ensures
        oom_kills(before) == 0,
        "oom_kill "@.is_prefix_of(line) && words(line).len() > 1 ==> oom_kills(
            before + seq![line] + after,
        ) == (match read_u64(words(line)[1]) {
            Ok(n) => n,
            Err(_) => 0u64,
        }),
    decreases before.len(),
{
    let all = before + seq![line] + after;
    if before.len() == 0 {
        assert(all[0] == line);
    } else {
        let rest = before.skip(1);
        assert forall|i: int| 0 <= i < rest.len() implies !"oom_kill "@.is_prefix_of(
            #[trigger] rest[i],
        ) || words(rest[i]).len() <= 1 by {
            assert(rest[i] == before[i + 1]);
        }
        first_count_of_kills_decides(rest, line, after);
        assert(all[0] == before[0]);
        assert(all.skip(1) =~= rest + seq![line] + after);
    }
}

/// Lines that are not about the usage do not matter to it, wherever they stand before the one that is;
/// and that one holds the usage behind its name. Without such a line the usage is missing.
pub proof fn first_usage_line_decides(before: Seq<Seq<char>>, line: Seq<char>, after: Seq<Seq<char>>)
    requires
        forall|i: int|
            0 <= i < before.len() ==> !"usage_usec "@.is_prefix_of(#[trigger] before[i]),
    ensures
        cpu_usage(before) == Err::<u64, CgroupError>(CgroupError::UsageMissing),
        "usage_usec "@.is_prefix_of(line) ==> cpu_usage(before + seq![line] + after) == (
        match read_u64(trimmed(line.skip(11))) {
            Ok(n) => Ok::<u64, CgroupError>(n),
            Err(e) => Err::<u64, CgroupError>(CgroupError::Number(e)),
        }),
    decreases before.len(),
{
    reveal_strlit("usage_usec ");
    let all = before + seq![line] + after;
    if before.len() == 0 {
        assert(all[0] == line);
    } else {
        let rest = before.skip(1);
        assert forall|i: int| 0 <= i < rest.len() implies !"usage_usec "@.is_prefix_of(
            #[trigger] rest[i],
        ) by {
            assert(rest[i] == before[i + 1]);
        }
        first_usage_line_decides(rest, line, after);
        assert(all[0] == before[0]);
        assert(all.skip(1) =~= rest + seq![line] + after);
    }
}

} // verus!
