//! What dropping privileges does.
use vstd::prelude::*;
use crate::flow::{is_run, Step};
use crate::privdrop::{
    drop_next, Capability, CapabilitySet, DropAction, DropEvent, DropFlow, DropPhase, DropStep,
    PrivDropError, UserEntry,
};

verus! {

/// The answer sets this set to the capabilities that the service needs, and to no others.
pub open spec fn sets_needed(step: DropStep, which: CapabilitySet) -> bool {
    step matches Step::Do(DropAction::SetCapabilities { set, capabilities }) && set == which
        && capabilities@ == seq![
        Capability::SysAdmin,
        Capability::NetAdmin,
        Capability::NetRaw,
        Capability::Setuid,
        Capability::Setgid,
        Capability::NetBindService,
    ]
}

/// The first `n` events of a drop to the user `user` where nothing that matters goes wrong. Trouble
/// with capabilities and with supplementary groups does not matter.
pub open spec fn drop_goes_well(events: Seq<DropEvent>, user: UserEntry, n: int) -> bool {
    &&& n > 0 ==> events[0] == DropEvent::Start
    &&& n > 1 ==> events[1] == DropEvent::User(Some(user))
    &&& n > 2 ==> events[2] is Done
    &&& n > 3 ==> events[3] is Done
    &&& n > 4 ==> (events[4] matches DropEvent::Done(Ok(_)))
    &&& n > 5 ==> (events[5] matches DropEvent::Done(Ok(_)))
    &&& n > 6 ==> events[6] is Done
    &&& n > 7 ==> events[7] is Done
    &&& n > 8 ==> events[8] is Done
}

/// A drop looks the user of the service up, keeps the capabilities across the change, takes over the
/// groups of that user, changes the group and then the user to those of the entry, sets the three sets
/// of capabilities, and looks at the effective user in the end. Only root there is an error; and so
/// are a user that is not found, and a group or user that cannot be changed.
pub proof fn drop_becomes_the_user_of_the_service(
    states: Seq<DropFlow>,
    events: Seq<DropEvent>,
    steps: Seq<DropStep>,
    user: UserEntry,
    n: int,
)
    requires
        is_run(drop_next(), states, events, steps),
        states[0].phase == DropPhase::Begin,
        0 <= n <= steps.len(),
        n <= 9,
        drop_goes_well(events, user, n),
    ensures
        n > 0 ==> (steps[0] matches Step::Do(DropAction::LookupUser { name }) && name@ == "vyoma"@),
        n > 1 ==> (steps[1] matches Step::Do(DropAction::KeepCapabilities)),
        n > 2 ==> (steps[2] matches Step::Do(DropAction::InitGroups { name, gid }) && name@
            == "vyoma"@ && gid == user.gid),
        n > 3 ==> (steps[3] matches Step::Do(DropAction::SetGid { gid }) && gid == user.gid),
        n > 4 ==> (steps[4] matches Step::Do(DropAction::SetUid { uid }) && uid == user.uid),
        n > 5 ==> sets_needed(steps[5], CapabilitySet::Inheritable),
        n > 6 ==> sets_needed(steps[6], CapabilitySet::Effective),
        n > 7 ==> sets_needed(steps[7], CapabilitySet::Ambient),
        n > 8 ==> (steps[8] matches Step::Do(DropAction::EffectiveUser)),
        n == 1 < steps.len() ==> (events[1] == DropEvent::User(None) ==> (
        steps[1] matches Step::Return(Err(PrivDropError::UserNotFound(name))) && name@
            == "vyoma"@)),
        n == 4 < steps.len() ==> (events[4] matches DropEvent::Done(Err(e)) ==> steps[4]
            == DropStep::Return(Err(PrivDropError::SetgidError(e)))),
        n == 5 < steps.len() ==> (events[5] matches DropEvent::Done(Err(e)) ==> steps[5]
            == DropStep::Return(Err(PrivDropError::SetuidError(e)))),
        n == 9 < steps.len() ==> (events[9] matches DropEvent::EffectiveUser(uid) ==> if uid == 0 {
            steps[9] matches Step::Return(Err(PrivDropError::VerificationFailed))
        } else {
            steps[9] matches Step::Return(Ok(_))
        }),
{
}

} // verus!
