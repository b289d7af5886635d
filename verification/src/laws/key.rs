//! What finding the key of a build does.
use vstd::prelude::*;
use crate::build::signing::{key_next, KeyAction, KeyEvent, KeyFlow, KeyPhase, KeyStep};
use crate::flow::{is_run, lemma_first_steps, lemma_shorter_run, Step};
use crate::image::text_view;
use crate::laws::ends::execution_error;
use crate::path::joined_path;

verus! {

/// The answer looks for this file.
pub open spec fn looks_for<K>(step: KeyStep<K>, file: Seq<char>) -> bool {
    step matches Step::Do(KeyAction::Probe { path }) && path@ == file
}

/// The answer reads this file.
pub open spec fn reads<K>(step: KeyStep<K>, file: Seq<char>) -> bool {
    step matches Step::Do(KeyAction::Read { path }) && path@ == file
}

/// The answer creates this directory.
pub open spec fn creates<K>(step: KeyStep<K>, dir: Seq<char>) -> bool {
    step matches Step::Do(KeyAction::CreateDir { path }) && path@ == dir
}

/// The directory that was asked for comes first. If it is missing a key is made in it. If it holds both
/// files its key is read; otherwise the search goes on in the working directory.
pub proof fn asked_directory_comes_first<K>(
    states: Seq<KeyFlow<K>>,
    events: Seq<KeyEvent<K>>,
    steps: Seq<KeyStep<K>>,
    dir: Seq<char>,
)
    requires
        is_run(key_next::<K>(), states, events, steps),
        states[0].phase == KeyPhase::Begin,
        text_view(states[0].key_path) == Some(dir),
        steps.len() >= 4,
        events[0] == KeyEvent::<K>::Start,
    ensures
        ({
            let yes = KeyEvent::<K>::Probed(true);
            let no = KeyEvent::<K>::Probed(false);
            let secret = joined_path(dir, "build_signing_key"@);
            let public = joined_path(dir, "build_signing_key.pub"@);
            let other = joined_path(states[0].work_dir@, "build_signing_key"@);
            &&& looks_for(steps[0], dir)
            &&& events[1] == no ==> creates(steps[1], dir)
            &&& events[1] == yes ==> looks_for(steps[1], secret)
            &&& events[1] == yes && events[2] == no ==> looks_for(steps[2], other)
            &&& events[1] == yes && events[2] == yes ==> looks_for(steps[2], public)
            &&& events[1] == yes && events[2] == yes && events[3] == yes ==> reads(steps[3], secret)
            &&& events[1] == yes && events[2] == yes && events[3] == no ==> looks_for(
                steps[3],
                other,
            )
        }),
{
}

/// Where the search goes on in the working directory, its key is read if both files are there.
/// Otherwise a key is made: in the directory that was asked for, or else in the working directory.
pub proof fn working_directory_comes_second<K>(
    states: Seq<KeyFlow<K>>,
    events: Seq<KeyEvent<K>>,
    steps: Seq<KeyStep<K>>,
    at: int,
)
    requires
        is_run(key_next::<K>(), states, events, steps),
        states[0].phase == KeyPhase::Begin,
        0 <= at < steps.len() - 2,
        states[at + 1].phase == KeyPhase::ProbeStandardSecret,
        !(states[at].phase == KeyPhase::ProbeStandardSecret),
    ensures
        ({
            let yes = KeyEvent::<K>::Probed(true);
            let no = KeyEvent::<K>::Probed(false);
            let work = states[0].work_dir@;
            let new = match text_view(states[0].key_path) {
                Some(dir) => dir,
                None => work,
            };
            &&& looks_for(steps[at], joined_path(work, "build_signing_key"@))
            &&& events[at + 1] == no ==> creates(steps[at + 1], new)
            &&& events[at + 1] == yes ==> looks_for(
                steps[at + 1],
                joined_path(work, "build_signing_key.pub"@),
            )
            &&& events[at + 1] == yes && events[at + 2] == no ==> creates(steps[at + 2], new)
            &&& events[at + 1] == yes && events[at + 2] == yes ==> reads(
                steps[at + 2],
                joined_path(work, "build_signing_key"@),
            )
        }),
{
    lemma_first_steps(key_next::<K>(), states, events, steps, at);
    lemma_key_kept(states.take(at + 1), events.take(at), steps.take(at));
    lemma_first_steps(key_next::<K>(), states, events, steps, at + 1);
    lemma_first_steps(key_next::<K>(), states, events, steps, at + 2);
}

/// Without a directory that was asked for the search begins in the working directory.
pub proof fn search_begins_in_the_working_directory<K>(
    states: Seq<KeyFlow<K>>,
    events: Seq<KeyEvent<K>>,
    steps: Seq<KeyStep<K>>,
)
    requires
        is_run(key_next::<K>(), states, events, steps),
        states[0].phase == KeyPhase::Begin,
        states[0].key_path is None,
        steps.len() >= 3,
        events[0] == KeyEvent::<K>::Start,
    ensures
        ({
            let yes = KeyEvent::<K>::Probed(true);
            let no = KeyEvent::<K>::Probed(false);
            let work = states[0].work_dir@;
            let secret = joined_path(work, "build_signing_key"@);
            &&& looks_for(steps[0], secret)
            &&& events[1] == no ==> creates(steps[1], work)
            &&& events[1] == yes ==> looks_for(
                steps[1],
                joined_path(work, "build_signing_key.pub"@),
            )
            &&& events[1] == yes && events[2] == no ==> creates(steps[2], work)
            &&& events[1] == yes && events[2] == yes ==> reads(steps[2], secret)
        }),
{
}

proof fn lemma_key_kept<K>(
    states: Seq<KeyFlow<K>>,
    events: Seq<KeyEvent<K>>,
    steps: Seq<KeyStep<K>>,
)
    requires
        is_run(key_next::<K>(), states, events, steps),
    ensures
        states.last().work_dir == states[0].work_dir,
        states.last().key_path == states[0].key_path,
    decreases steps.len(),
{
    if steps.len() > 0 {
        lemma_shorter_run(key_next::<K>(), states, events, steps);
        lemma_key_kept(states.drop_last(), events.drop_last(), steps.drop_last());
    }
}

/// A key that is read is made of the bytes of its two files, the secret one first, and what it is made
/// into is returned. A file that cannot be read, and bytes that make no key, are errors.
pub proof fn key_is_made_of_its_files<K>(
    states: Seq<KeyFlow<K>>,
    events: Seq<KeyEvent<K>>,
    steps: Seq<KeyStep<K>>,
    at: int,
    dir: Seq<char>,
    seed: Vec<u8>,
    public: Vec<u8>,
    n: int,
)
    requires
        is_run(key_next::<K>(), states, events, steps),
        states[0].phase == KeyPhase::Begin,
        0 <= n <= 2,
        0 <= at,
        at + n < steps.len(),
        states[at].phase == KeyPhase::ReadSecret,
        states[at].dir@ == dir,
        n > 0 ==> events[at] == KeyEvent::<K>::Content(Ok(seed)),
        n > 1 ==> events[at + 1] == KeyEvent::<K>::Content(Ok(public)),
    ensures
        n > 0 ==> reads(steps[at], joined_path(dir, "build_signing_key.pub"@)),
        n > 1 ==> steps[at + 1] == KeyStep::<K>::Do(KeyAction::Load { seed, public }),
        n == 0 ==> (events[at] matches KeyEvent::Content(Err(e)) ==> execution_error(
            steps[at],
            "Failed to read signing key: "@ + e@,
        )),
        n == 1 ==> (events[at + 1] matches KeyEvent::Content(Err(e)) ==> execution_error(
            steps[at + 1],
            "Failed to read public key: "@ + e@,
        )),
        n == 2 ==> (events[at + 2] matches KeyEvent::Loaded(Ok(key)) ==> steps[at + 2]
            == KeyStep::Return(Ok(Some(key)))),
        n == 2 ==> (events[at + 2] matches KeyEvent::Loaded(Err(e)) ==> execution_error(
            steps[at + 2],
            "Failed to load signing key: "@ + e@,
        )),
{
    lemma_first_steps(key_next::<K>(), states, events, steps, at);
    if n > 0 {
        lemma_first_steps(key_next::<K>(), states, events, steps, at + 1);
    }
    if n > 1 {
        lemma_first_steps(key_next::<K>(), states, events, steps, at + 2);
    }
}

/// A key that is made is generated once its directory is there. Its public part is written to one file
/// and its secret part to the other, which only its owner may then read and write, and the key is
/// returned. A directory or a file that cannot be made is an error; permissions that cannot be set are
/// not.
pub proof fn new_key_is_written_and_returned<K>(
    states: Seq<KeyFlow<K>>,
    events: Seq<KeyEvent<K>>,
    steps: Seq<KeyStep<K>>,
    at: int,
    dir: Seq<char>,
    key: K,
    seed: Vec<u8>,
    public: Vec<u8>,
    n: int,
)
    requires
        is_run(key_next::<K>(), states, events, steps),
        states[0].phase == KeyPhase::Begin,
        0 <= n <= 4,
        0 <= at,
        at + n < steps.len(),
        states[at].phase == KeyPhase::CreateDir,
        states[at].dir@ == dir,
        n > 0 ==> (events[at] matches KeyEvent::Done(Ok(_))),
        n > 1 ==> events[at + 1] == (KeyEvent::<K>::Generated { key, seed, public }),
        n > 2 ==> (events[at + 2] matches KeyEvent::Done(Ok(_))),
        n > 3 ==> (events[at + 3] matches KeyEvent::Done(Ok(_))),
    ensures
        ({
            let secret_at = joined_path(dir, "build_signing_key"@);
            let public_at = joined_path(dir, "build_signing_key.pub"@);
            &&& n > 0 ==> (steps[at] matches Step::Do(KeyAction::Generate))
            &&& n > 1 ==> (steps[at + 1] matches Step::Do(KeyAction::Write { path, content })
                && path@ == public_at && content == public)
            &&& n > 2 ==> (steps[at + 2] matches Step::Do(KeyAction::Write { path, content })
                && path@ == secret_at && content == seed)
            &&& n > 3 ==> (steps[at + 3] matches Step::Do(KeyAction::SetMode { path, mode })
                && path@ == secret_at && mode == 6 * 64)
            &&& n == 4 ==> (events[at + 4] is Done ==> steps[at + 4] == KeyStep::Return(
                Ok(Some(key)),
            ))
            &&& n == 0 ==> (events[at] matches KeyEvent::Done(Err(e)) ==> execution_error(
                steps[at],
                "Failed to create key dir: "@ + e@,
            ))
            &&& n == 2 ==> (events[at + 2] matches KeyEvent::Done(Err(e)) ==> execution_error(
                steps[at + 2],
                "Failed to save public key: "@ + e@,
            ))
            &&& n == 3 ==> (events[at + 3] matches KeyEvent::Done(Err(e)) ==> execution_error(
                steps[at + 3],
                "Failed to save signing key: "@ + e@,
            ))
        }),
{
    lemma_first_steps(key_next::<K>(), states, events, steps, at);
    if n > 0 {
        lemma_first_steps(key_next::<K>(), states, events, steps, at + 1);
    }
    if n > 1 {
        lemma_first_steps(key_next::<K>(), states, events, steps, at + 2);
    }
    if n > 2 {
        lemma_first_steps(key_next::<K>(), states, events, steps, at + 3);
    }
    if n > 3 {
        lemma_first_steps(key_next::<K>(), states, events, steps, at + 4);
    }
}

/// The search is in the directory that it says: where it reads a key, it reads the secret file of that
/// directory, and where it makes one, it creates that directory.
pub proof fn search_is_where_it_says<K>(
    pre: KeyFlow<K>,
    event: KeyEvent<K>,
    post: KeyFlow<K>,
    step: KeyStep<K>,
)
    requires
        KeyFlow::transition(pre, event, post, step),
        !(step is Unexpected),
    ensures
        post.phase == KeyPhase::ReadSecret ==> reads(
            step,
            joined_path(post.dir@, "build_signing_key"@),
        ),
        post.phase == KeyPhase::CreateDir ==> creates(step, post.dir@),
{
}

} // verus!
