//! The way from root to the unprivileged user of the service.
use vstd::prelude::*;
use crate::flow::{is_run, lemma_shorter_run, Step};
use crate::text::{concat2, concat3, owned};

verus! {

/// The user that the service runs as.
pub const TARGET_USER: &'static str = "vyoma";

/// Why privileges could not be dropped.
#[derive(Debug)]
pub enum PrivDropError {
    UserNotFound(String),
    UserInfoError(String),
    CapabilityError(String),
    SetgroupsError(String),
    SetgidError(String),
    SetuidError(String),
    VerificationFailed,
}

impl PrivDropError {
    /// The error as a sentence.
    pub open spec fn sentence(self) -> Seq<char> {
        match self {
            PrivDropError::UserNotFound(name) => "User '"@ + name@
                + "' not found. Please ensure the vyoma user exists."@,
            PrivDropError::UserInfoError(e) => "Failed to get user info: "@ + e@,
            PrivDropError::CapabilityError(e) => "Failed to set capabilities: "@ + e@,
            PrivDropError::SetgroupsError(e) => "Failed to set groups: "@ + e@,
            PrivDropError::SetgidError(e) => "Failed to setgid: "@ + e@,
            PrivDropError::SetuidError(e) => "Failed to setuid: "@ + e@,
            PrivDropError::VerificationFailed =>
                "Privilege drop verification failed: still running as root"@,
        }
    }

    /// The error as a sentence.
    pub fn message(&self) -> (r: String)
        ensures
            r@ == self.sentence(),
    {
        match self {
            PrivDropError::UserNotFound(name) => concat3(
                "User '",
                name.as_str(),
                "' not found. Please ensure the vyoma user exists.",
            ),
            PrivDropError::UserInfoError(e) => concat2("Failed to get user info: ", e.as_str()),
            PrivDropError::CapabilityError(e) => concat2(
                "Failed to set capabilities: ",
                e.as_str(),
            ),
            PrivDropError::SetgroupsError(e) => concat2("Failed to set groups: ", e.as_str()),
            PrivDropError::SetgidError(e) => concat2("Failed to setgid: ", e.as_str()),
            PrivDropError::SetuidError(e) => concat2("Failed to setuid: ", e.as_str()),
            PrivDropError::VerificationFailed => owned(
                "Privilege drop verification failed: still running as root",
            ),
        }
    }
}

/// A capability that the service keeps.
#[derive(Debug, Clone, Copy, PartialEq, Eq, Structural)]
pub enum Capability {
    SysAdmin,
    NetAdmin,
    NetRaw,
    Setuid,
    Setgid,
    NetBindService,
}

/// A set of capabilities of the process.
#[derive(Debug, Clone, Copy, PartialEq, Eq, Structural)]
pub enum CapabilitySet {
    Inheritable,
    Effective,
    Ambient,
}

/// The capabilities that the service keeps.
pub open spec fn kept_capabilities() -> Seq<Capability> {
    seq![
        Capability::SysAdmin,
        Capability::NetAdmin,
        Capability::NetRaw,
        Capability::Setuid,
        Capability::Setgid,
        Capability::NetBindService,
    ]
}

/// The capabilities that the service keeps.
pub fn allowed_capabilities() -> (r: Vec<Capability>)
    ensures
        r@ == kept_capabilities(),
{
    let r = vec![
        Capability::SysAdmin,
        Capability::NetAdmin,
        Capability::NetRaw,
        Capability::Setuid,
        Capability::Setgid,
        Capability::NetBindService,
    ];
    r
}

/// The numbers of a user.
#[derive(Debug, Clone, Copy, PartialEq, Eq, Structural)]
pub struct UserEntry {
    pub uid: u32,
    pub gid: u32,
}

/// The entry of a user, if the user database has one.
pub fn get_pwentry(username: &str, found: Option<UserEntry>) -> (r: Result<
    UserEntry,
    PrivDropError,
>)
    ensures
        match found {
            Some(entry) => r == Ok::<UserEntry, PrivDropError>(entry),
            None => r matches Err(PrivDropError::UserNotFound(name)) && name@ == username@,
        },
{
    match found {
        Some(entry) => Ok(entry),
        None => Err(PrivDropError::UserNotFound(owned(username))),
    }
}

/// How far the drop has come.
#[derive(Debug, Clone, Copy, PartialEq, Eq, Structural)]
pub enum DropPhase {
    Begin,
    Lookup,
    KeepCapabilities,
    InitGroups,
    SetGid,
    SetUid,
    Inheritable,
    Effective,
    Ambient,
    Verify,
    Finished,
}

/// What the drop asks for.
pub enum DropAction {
    /// Look the user up in the user database.
    LookupUser { name: String },
    /// Keep the capabilities across the change of the user.
    KeepCapabilities,
    /// Take over the supplementary groups of the user.
    InitGroups { name: String, gid: u32 },
    /// Change the group.
    SetGid { gid: u32 },
    /// Change the user.
    SetUid { uid: u32 },
    /// Set one set of capabilities to these.
    SetCapabilities { set: CapabilitySet, capabilities: Vec<Capability> },
    /// Report the effective user.
    EffectiveUser,
}

/// What happened to the last action of the drop.
pub enum DropEvent {
    Start,
    User(Option<UserEntry>),
    Done(Result<(), String>),
    EffectiveUser(u32),
}

/// The answer of the drop to an event.
pub type DropStep = Step<DropAction, (), PrivDropError>;

/// Workflow that drops privileges.
///
/// Only the change of the group and of the user, and a user that is still root in the end, stop
/// the drop; capabilities and supplementary groups that cannot be set do not.
pub struct DropFlow {
    pub user: UserEntry,
    pub phase: DropPhase,
}

impl DropFlow {
    /// The answer sets this set of capabilities to those that the service keeps.
    pub open spec fn keeps(step: DropStep, which: CapabilitySet) -> bool {
        step matches Step::Do(DropAction::SetCapabilities { set, capabilities }) && set == which
            && capabilities@ == kept_capabilities()
    }

    /// The workflow goes on to `phase`.
    pub open spec fn moves(pre: DropFlow, phase: DropPhase, post: DropFlow) -> bool {
        post == DropFlow { phase: phase, ..pre }
    }

    /// How the workflow answers an event.
    pub open spec fn transition(
        pre: DropFlow,
        event: DropEvent,
        post: DropFlow,
        step: DropStep,
    ) -> bool {
        match (pre.phase, event) {
            (DropPhase::Begin, DropEvent::Start) => {
                &&& Self::moves(pre, DropPhase::Lookup, post)
                &&& step matches Step::Do(DropAction::LookupUser { name }) && name@ == TARGET_USER@
            },
            (DropPhase::Lookup, DropEvent::User(Some(entry))) => {
                &&& post == DropFlow { user: entry, phase: DropPhase::KeepCapabilities }
                &&& step matches Step::Do(DropAction::KeepCapabilities)
            },
            (DropPhase::Lookup, DropEvent::User(None)) => {
                &&& Self::moves(pre, DropPhase::Finished, post)
                &&& step matches Step::Return(Err(PrivDropError::UserNotFound(name))) && name@
                    == TARGET_USER@
            },
            (DropPhase::KeepCapabilities, DropEvent::Done(_)) => {
                &&& Self::moves(pre, DropPhase::InitGroups, post)
                &&& step matches Step::Do(DropAction::InitGroups { name, gid }) && name@
                    == TARGET_USER@ && gid == pre.user.gid
            },
            (DropPhase::InitGroups, DropEvent::Done(_)) => {
                &&& Self::moves(pre, DropPhase::SetGid, post)
                &&& step matches Step::Do(DropAction::SetGid { gid }) && gid == pre.user.gid
            },
            (DropPhase::SetGid, DropEvent::Done(Ok(_))) => {
                &&& Self::moves(pre, DropPhase::SetUid, post)
                &&& step matches Step::Do(DropAction::SetUid { uid }) && uid == pre.user.uid
            },
            (DropPhase::SetGid, DropEvent::Done(Err(e))) => {
                &&& Self::moves(pre, DropPhase::Finished, post)
                &&& step == DropStep::Return(Err(PrivDropError::SetgidError(e)))
            },
            (DropPhase::SetUid, DropEvent::Done(Ok(_))) => {
                &&& Self::moves(pre, DropPhase::Inheritable, post)
                &&& Self::keeps(step, CapabilitySet::Inheritable)
            },
            (DropPhase::SetUid, DropEvent::Done(Err(e))) => {
                &&& Self::moves(pre, DropPhase::Finished, post)
                &&& step == DropStep::Return(Err(PrivDropError::SetuidError(e)))
            },
            (DropPhase::Inheritable, DropEvent::Done(_)) => {
                &&& Self::moves(pre, DropPhase::Effective, post)
                &&& Self::keeps(step, CapabilitySet::Effective)
            },
            (DropPhase::Effective, DropEvent::Done(_)) => {
                &&& Self::moves(pre, DropPhase::Ambient, post)
                &&& Self::keeps(step, CapabilitySet::Ambient)
            },
            (DropPhase::Ambient, DropEvent::Done(_)) => {
                &&& Self::moves(pre, DropPhase::Verify, post)
                &&& step matches Step::Do(DropAction::EffectiveUser)
            },
            (DropPhase::Verify, DropEvent::EffectiveUser(uid)) => {
                &&& Self::moves(pre, DropPhase::Finished, post)
                &&& if uid == 0 {
                    step matches Step::Return(Err(PrivDropError::VerificationFailed))
                } else {
                    step matches Step::Return(Ok(_))
                }
            },
            _ => post == pre && step is Unexpected,
        }
    }

    fn keep(set: CapabilitySet) -> (r: DropStep)
        ensures
            Self::keeps(r, set),
    {
        Step::Do(DropAction::SetCapabilities { set, capabilities: allowed_capabilities() })
    }

    /// Takes the outcome of the last action and says what to do next.
    pub fn step(&mut self, event: DropEvent) -> (r: DropStep)
        ensures
            Self::transition(*old(self), event, *final(self), r),
    {
        match (self.phase, event) {
            (DropPhase::Begin, DropEvent::Start) => {
                self.phase = DropPhase::Lookup;
                Step::Do(DropAction::LookupUser { name: owned(TARGET_USER) })
            },
            (DropPhase::Lookup, DropEvent::User(found)) => match get_pwentry(TARGET_USER, found) {
                Ok(entry) => {
                    self.user = entry;
                    self.phase = DropPhase::KeepCapabilities;
                    Step::Do(DropAction::KeepCapabilities)
                },
                Err(e) => {
                    self.phase = DropPhase::Finished;
                    Step::Return(Err(e))
                },
            },
            (DropPhase::KeepCapabilities, DropEvent::Done(_)) => {
                self.phase = DropPhase::InitGroups;
                Step::Do(DropAction::InitGroups { name: owned(TARGET_USER), gid: self.user.gid })
            },
            (DropPhase::InitGroups, DropEvent::Done(_)) => {
                self.phase = DropPhase::SetGid;
                Step::Do(DropAction::SetGid { gid: self.user.gid })
            },
            (DropPhase::SetGid, DropEvent::Done(Ok(_))) => {
                self.phase = DropPhase::SetUid;
                Step::Do(DropAction::SetUid { uid: self.user.uid })
            },
            (DropPhase::SetGid, DropEvent::Done(Err(e))) => {
                self.phase = DropPhase::Finished;
                Step::Return(Err(PrivDropError::SetgidError(e)))
            },
            (DropPhase::SetUid, DropEvent::Done(Ok(_))) => {
                self.phase = DropPhase::Inheritable;
                Self::keep(CapabilitySet::Inheritable)
            },
            (DropPhase::SetUid, DropEvent::Done(Err(e))) => {
                self.phase = DropPhase::Finished;
                Step::Return(Err(PrivDropError::SetuidError(e)))
            },
            (DropPhase::Inheritable, DropEvent::Done(_)) => {
                self.phase = DropPhase::Effective;
                Self::keep(CapabilitySet::Effective)
            },
            (DropPhase::Effective, DropEvent::Done(_)) => {
                self.phase = DropPhase::Ambient;
                Self::keep(CapabilitySet::Ambient)
            },
            (DropPhase::Ambient, DropEvent::Done(_)) => {
                self.phase = DropPhase::Verify;
                Step::Do(DropAction::EffectiveUser)
            },
            (DropPhase::Verify, DropEvent::EffectiveUser(uid)) => {
                self.phase = DropPhase::Finished;
                if uid == 0 {
                    Step::Return(Err(PrivDropError::VerificationFailed))
                } else {
                    Step::Return(Ok(()))
                }
            },
            _ => Step::Unexpected,
        }
    }
}

/// Begins to drop privileges.
pub fn drop_privileges() -> (r: DropFlow)
    ensures
        r.phase == DropPhase::Begin,
{
    DropFlow { user: UserEntry { uid: 0, gid: 0 }, phase: DropPhase::Begin }
}

/// The steps of the drop.
pub open spec fn drop_next() -> spec_fn(DropFlow, DropEvent, DropFlow, DropStep) -> bool {
    |pre: DropFlow, event: DropEvent, post: DropFlow, step: DropStep|
        DropFlow::transition(pre, event, post, step)
}

/// The lookup reports that the user has this entry.
pub open spec fn finds_user(flow: DropFlow, event: DropEvent, user: UserEntry) -> bool {
    flow.phase == DropPhase::Lookup && event == DropEvent::User(Some(user))
}

/// The answer changes the group to this one.
pub open spec fn sets_group(step: DropStep, group: u32) -> bool {
    step matches Step::Do(DropAction::SetGid { gid }) && gid == group
}

/// The answer changes the user to this one.
pub open spec fn sets_user(step: DropStep, user: u32) -> bool {
    step matches Step::Do(DropAction::SetUid { uid }) && uid == user
}

/// The event at `i` reports that the group was changed.
pub open spec fn group_changed(states: Seq<DropFlow>, events: Seq<DropEvent>, i: int) -> bool {
    &&& 0 <= i < events.len()
    &&& states[i].phase == DropPhase::SetGid
    &&& events[i] matches DropEvent::Done(Ok(_))
}

/// The event at `i` reports that the user was changed.
pub open spec fn user_changed(states: Seq<DropFlow>, events: Seq<DropEvent>, i: int) -> bool {
    &&& 0 <= i < events.len()
    &&& states[i].phase == DropPhase::SetUid
    &&& events[i] matches DropEvent::Done(Ok(_))
}

/// The phases from the change of the group on.
spec fn from_group(phase: DropPhase) -> bool {
    phase == DropPhase::SetGid || from_user(phase)
}

/// The phases from the change of the user on.
spec fn from_user(phase: DropPhase) -> bool {
    phase == DropPhase::SetUid || behind_user(phase)
}

/// The phases behind the change of the user.
spec fn behind_user(phase: DropPhase) -> bool {
    phase == DropPhase::Inheritable || phase == DropPhase::Effective || phase == DropPhase::Ambient
        || phase == DropPhase::Verify
}

/// Somebody has been looked up.
spec fn has_user(phase: DropPhase) -> bool {
    phase == DropPhase::KeepCapabilities || phase == DropPhase::InitGroups || from_group(phase)
}

proof fn lemma_identity(states: Seq<DropFlow>, events: Seq<DropEvent>, steps: Seq<DropStep>)
    requires
        is_run(drop_next(), states, events, steps),
        states[0].phase == DropPhase::Begin,
    ensures
        ({
            let flow = states.last();
            &&& has_user(flow.phase) ==> exists|i: int|
                0 <= i < events.len() && finds_user(states[i], #[trigger] events[i], flow.user)
            &&& from_group(flow.phase) ==> exists|i: int|
                0 <= i < steps.len() && sets_group(#[trigger] steps[i], flow.user.gid)
            &&& from_user(flow.phase) ==> exists|i: int|
                0 <= i < steps.len() && sets_user(#[trigger] steps[i], flow.user.uid)
        }),
    decreases steps.len(),
{
    if steps.len() > 0 {
        lemma_shorter_run(drop_next(), states, events, steps);
        let s = states.drop_last();
        let e = events.drop_last();
        let t = steps.drop_last();
        let n = steps.len() - 1;
        lemma_identity(s, e, t);
        let user = states.last().user;
        if has_user(states.last().phase) {
            if has_user(s.last().phase) {
                let i = choose|i: int| 0 <= i < e.len() && finds_user(s[i], #[trigger] e[i], user);
                assert(finds_user(states[i], events[i], user));
            } else {
                assert(finds_user(states[n], events[n], user));
            }
        }
        if from_group(states.last().phase) {
            if from_group(s.last().phase) {
                let i = choose|i: int| 0 <= i < t.len() && sets_group(#[trigger] t[i], user.gid);
                assert(sets_group(steps[i], user.gid));
            } else {
                assert(sets_group(steps[n], user.gid));
            }
        }
        if from_user(states.last().phase) {
            if from_user(s.last().phase) {
                let i = choose|i: int| 0 <= i < t.len() && sets_user(#[trigger] t[i], user.uid);
                assert(sets_user(steps[i], user.uid));
            } else {
                assert(sets_user(steps[n], user.uid));
            }
        }
    }
}

proof fn lemma_drop_order(states: Seq<DropFlow>, events: Seq<DropEvent>, steps: Seq<DropStep>)
    requires
        is_run(drop_next(), states, events, steps),
        states[0].phase == DropPhase::Begin,
    ensures
        states.last().phase == DropPhase::SetUid ==> exists|g: int|
            #[trigger] group_changed(states, events, g),
        behind_user(states.last().phase) ==> exists|g: int, u: int|
            g < u && #[trigger] group_changed(states, events, g) && #[trigger] user_changed(
                states,
                events,
                u,
            ),
    decreases steps.len(),
{
    if steps.len() > 0 {
        lemma_shorter_run(drop_next(), states, events, steps);
        let n = steps.len() - 1;
        let s = states.drop_last();
        let e = events.drop_last();
        lemma_drop_order(s, e, steps.drop_last());
        if s.last().phase == DropPhase::SetUid {
            let g = choose|g: int| #[trigger] group_changed(s, e, g);
            assert(group_changed(states, events, g));
            if behind_user(states.last().phase) {
                assert(user_changed(states, events, n));
            }
        } else if behind_user(s.last().phase) {
            let (g, u) = choose|g: int, u: int|
                g < u && #[trigger] group_changed(s, e, g) && #[trigger] user_changed(s, e, u);
            assert(group_changed(states, events, g));
            assert(user_changed(states, events, u));
        } else if states.last().phase == DropPhase::SetUid {
            assert(group_changed(states, events, n));
        }
    }
}

/// A drop that reports success has asked for the group and the user of the entry that was looked
/// up. The group was changed, the user was changed after it, and the effective user that was seen
/// last is not root.
pub proof fn successful_drop_leaves_root(
    states: Seq<DropFlow>,
    events: Seq<DropEvent>,
    steps: Seq<DropStep>,
)
    requires
        is_run(drop_next(), states, events, steps),
        states[0].phase == DropPhase::Begin,
        steps.len() > 0,
        steps.last() matches Step::Return(Ok(_)),
    ensures
        exists|i: int|
            0 <= i < events.len() && finds_user(
                states[i],
                #[trigger] events[i],
                states.last().user,
            ),
        exists|i: int|
            0 <= i < steps.len() && sets_group(#[trigger] steps[i], states.last().user.gid),
        exists|i: int|
            0 <= i < steps.len() && sets_user(#[trigger] steps[i], states.last().user.uid),
        exists|g: int, u: int|
            g < u && #[trigger] group_changed(states, events, g) && #[trigger] user_changed(
                states,
                events,
                u,
            ),
        events.last() matches DropEvent::EffectiveUser(uid) && uid != 0,
{
    lemma_shorter_run(drop_next(), states, events, steps);
    let s = states.drop_last();
    let e = events.drop_last();
    let t = steps.drop_last();
    lemma_drop_order(s, e, t);
    let (g, u) = choose|g: int, u: int|
        g < u && #[trigger] group_changed(s, e, g) && #[trigger] user_changed(s, e, u);
    assert(group_changed(states, events, g));
    assert(user_changed(states, events, u));
    lemma_identity(s, e, t);
    let user = states.last().user;
    let i = choose|i: int| 0 <= i < e.len() && finds_user(s[i], #[trigger] e[i], user);
    assert(finds_user(states[i], events[i], user));
    let j = choose|j: int| 0 <= j < t.len() && sets_group(#[trigger] t[j], user.gid);
    assert(sets_group(steps[j], user.gid));
    let k = choose|k: int| 0 <= k < t.len() && sets_user(#[trigger] t[k], user.uid);
    assert(sets_user(steps[k], user.uid));
}

/// Supplementary groups and capabilities never stop the drop: an error comes only from the lookup,
/// the change of the group or of the user, or the final check.
pub proof fn only_identity_errors_stop_the_drop(
    pre: DropFlow,
    event: DropEvent,
    post: DropFlow,
    step: DropStep,
)
    requires
        DropFlow::transition(pre, event, post, step),
        step matches Step::Return(Err(_)),
    ensures
        pre.phase == DropPhase::Lookup || pre.phase == DropPhase::SetGid || pre.phase
            == DropPhase::SetUid || pre.phase == DropPhase::Verify,
{
}

/// Whatever the drop sets capabilities to, it is what the service keeps, and it is set only when the
/// user has been changed.
pub proof fn only_kept_capabilities_are_set(
    pre: DropFlow,
    event: DropEvent,
    post: DropFlow,
    step: DropStep,
)
    requires
        DropFlow::transition(pre, event, post, step),
        step matches Step::Do(DropAction::SetCapabilities { .. }),
    ensures
        step matches Step::Do(DropAction::SetCapabilities { capabilities, .. }) && capabilities@
            == kept_capabilities(),
        pre.phase == DropPhase::SetUid || pre.phase == DropPhase::Inheritable || pre.phase
            == DropPhase::Effective,
{
}

} // verus!
