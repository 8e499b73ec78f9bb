use open_twin::service::{
    execute, execute_one_way_tls, queue, required_entry_points, Invocation, InvocationAction, InvocationEvent,
    InvocationPhase, Operation,
};

fn respond(a: InvocationAction) -> (u16, String) {
    match a {
        InvocationAction::Respond(r) => (r.status, r.body),
        _ => panic!("expected a reply"),
    }
}

#[test]
fn perform_action_copies_then_releases_then_replies() {
    let mut i = Invocation::new(Operation::PerformAction);
    assert!(matches!(i.step(InvocationEvent::Returned { null: false }), InvocationAction::CopyOut));
    assert!(matches!(i.step(InvocationEvent::Copied(Some("{\"ok\":1}".to_string()))), InvocationAction::Release));
    assert_eq!(respond(i.step(InvocationEvent::Released)), (200, "{\"ok\":1}".to_string()));
    assert_eq!(i.phase(), InvocationPhase::Answered);
    // the call is over: nothing more is asked for
    assert!(matches!(i.step(InvocationEvent::Released), InvocationAction::Wait));
    assert!(matches!(i.step(InvocationEvent::Returned { null: false }), InvocationAction::Wait));
}

#[test]
fn queue_releases_without_copying_and_acknowledges() {
    let mut i = Invocation::new(Operation::QueueAction);
    assert!(matches!(i.step(InvocationEvent::Returned { null: false }), InvocationAction::Release));
    assert_eq!(respond(i.step(InvocationEvent::Released)), (200, "queue action called".to_string()));
}

#[test]
fn null_result_is_an_error_and_nothing_is_released() {
    let mut i = Invocation::new(Operation::PerformActionOneWayTls);
    let (status, _) = respond(i.step(InvocationEvent::Returned { null: true }));
    assert_eq!(status, 500);
    assert_eq!(i.phase(), InvocationPhase::Failed);
    assert!(matches!(i.step(InvocationEvent::Released), InvocationAction::Wait));
}

#[test]
fn unreadable_result_is_still_released_once() {
    let mut i = Invocation::new(Operation::PerformAction);
    assert!(matches!(i.step(InvocationEvent::Returned { null: false }), InvocationAction::CopyOut));
    assert!(matches!(i.step(InvocationEvent::Copied(None)), InvocationAction::Release));
    // a second copy report changes nothing
    assert!(matches!(i.step(InvocationEvent::Copied(Some("x".to_string()))), InvocationAction::Wait));
    let (status, _) = respond(i.step(InvocationEvent::Released));
    assert_eq!(status, 500);
}

#[test]
fn release_is_asked_for_exactly_once() {
    let mut i = Invocation::new(Operation::PerformAction);
    let events = vec![
        InvocationEvent::Released,
        InvocationEvent::Returned { null: false },
        InvocationEvent::Released,
        InvocationEvent::Copied(Some("a".to_string())),
        InvocationEvent::Copied(Some("b".to_string())),
        InvocationEvent::Released,
        InvocationEvent::Released,
    ];
    let mut releases = 0;
    let mut copy_after_release = false;
    for e in events {
        match i.step(e) {
            InvocationAction::Release => releases += 1,
            InvocationAction::CopyOut => copy_after_release |= releases > 0,
            _ => {}
        }
    }
    assert_eq!(releases, 1);
    assert!(!copy_after_release);
}

#[test]
fn calls_name_their_entry_points() {
    let c = execute("{}".to_string(), "1.2.3.4:5".to_string());
    assert_eq!(c.operation.entry_point(), "performAction");
    assert_eq!(c.payload, "{}");
    assert_eq!(c.remote, "1.2.3.4:5");
    assert_eq!(execute_one_way_tls("[]".to_string(), "a".to_string()).operation.entry_point(), "performActionOneWayTLS");
    assert_eq!(queue("1".to_string(), "b".to_string()).operation.entry_point(), "queueAction");
}

#[test]
fn required_entry_points_are_listed() {
    assert_eq!(
        required_entry_points(),
        vec!["init", "getServiceURL", "performAction", "performActionOneWayTLS", "queueAction", "deallocateData"]
    );
}
