use vyoma::flow::Step;
use vyoma::privdrop::{
    allowed_capabilities, drop_privileges, get_pwentry, Capability, CapabilitySet, DropAction,
    DropEvent, DropFlow, PrivDropError, UserEntry,
};

const VYOMA: UserEntry = UserEntry { uid: 990, gid: 980 };

fn until_set_gid() -> DropFlow {
    let mut flow = drop_privileges();
    assert!(matches!(flow.step(DropEvent::Start), Step::Do(DropAction::LookupUser { name }) if name == "vyoma"));
    assert!(matches!(flow.step(DropEvent::User(Some(VYOMA))), Step::Do(DropAction::KeepCapabilities)));
    let step = flow.step(DropEvent::Done(Err("no prctl".to_string())));
    assert!(matches!(step, Step::Do(DropAction::InitGroups { name, gid: 980 }) if name == "vyoma"));
    let step = flow.step(DropEvent::Done(Err("no groups".to_string())));
    assert!(matches!(step, Step::Do(DropAction::SetGid { gid: 980 })));
    flow
}

fn until_verify() -> DropFlow {
    let mut flow = until_set_gid();
    assert!(matches!(flow.step(DropEvent::Done(Ok(()))), Step::Do(DropAction::SetUid { uid: 990 })));
    let sets = vec![CapabilitySet::Inheritable, CapabilitySet::Effective, CapabilitySet::Ambient];
    let mut outcome: Result<(), String> = Ok(());
    for expected in sets {
        match flow.step(DropEvent::Done(outcome)) {
            Step::Do(DropAction::SetCapabilities { set, capabilities }) => {
                assert_eq!(set, expected);
                assert_eq!(capabilities, allowed_capabilities());
            }
            _ => panic!("capabilities expected"),
        }
        outcome = Err("containerized".to_string());
    }
    assert!(matches!(flow.step(DropEvent::Done(outcome)), Step::Do(DropAction::EffectiveUser)));
    flow
}

#[test]
fn drop_succeeds_without_root() {
    let mut flow = until_verify();
    assert!(matches!(flow.step(DropEvent::EffectiveUser(990)), Step::Return(Ok(()))));
}

#[test]
fn drop_fails_as_root() {
    let mut flow = until_verify();
    match flow.step(DropEvent::EffectiveUser(0)) {
        Step::Return(Err(e)) => {
            assert!(matches!(e, PrivDropError::VerificationFailed));
            assert_eq!(e.message(), "Privilege drop verification failed: still running as root");
        }
        _ => panic!("error expected"),
    }
}

#[test]
fn unknown_user_stops_the_drop() {
    let mut flow = drop_privileges();
    flow.step(DropEvent::Start);
    match flow.step(DropEvent::User(None)) {
        Step::Return(Err(e)) => assert_eq!(
            e.message(),
            "User 'vyoma' not found. Please ensure the vyoma user exists."
        ),
        _ => panic!("error expected"),
    }
}

#[test]
fn group_and_user_have_to_change() {
    let mut flow = until_set_gid();
    match flow.step(DropEvent::Done(Err("Operation not permitted".to_string()))) {
        Step::Return(Err(e)) => {
            assert_eq!(e.message(), "Failed to setgid: Operation not permitted")
        }
        _ => panic!("error expected"),
    }
    let mut flow = until_set_gid();
    flow.step(DropEvent::Done(Ok(())));
    match flow.step(DropEvent::Done(Err("Operation not permitted".to_string()))) {
        Step::Return(Err(e)) => {
            assert_eq!(e.message(), "Failed to setuid: Operation not permitted")
        }
        _ => panic!("error expected"),
    }
}

#[test]
fn events_out_of_order_change_nothing() {
    let mut flow = until_set_gid();
    assert!(matches!(flow.step(DropEvent::EffectiveUser(990)), Step::Unexpected));
    assert!(matches!(flow.step(DropEvent::Done(Ok(()))), Step::Do(DropAction::SetUid { uid: 990 })));
}

#[test]
fn six_capabilities_are_kept() {
    assert_eq!(
        allowed_capabilities(),
        vec![
            Capability::SysAdmin,
            Capability::NetAdmin,
            Capability::NetRaw,
            Capability::Setuid,
            Capability::Setgid,
            Capability::NetBindService,
        ]
    );
}

#[test]
fn other_errors_as_sentences() {
    assert_eq!(PrivDropError::UserInfoError("x".to_string()).message(), "Failed to get user info: x");
    assert_eq!(PrivDropError::CapabilityError("x".to_string()).message(), "Failed to set capabilities: x");
    assert_eq!(PrivDropError::SetgroupsError("x".to_string()).message(), "Failed to set groups: x");
    assert!(matches!(get_pwentry("nobody", None), Err(PrivDropError::UserNotFound(n)) if n == "nobody"));
    assert_eq!(get_pwentry("vyoma", Some(VYOMA)).unwrap(), VYOMA);
}
