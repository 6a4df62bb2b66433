use cured::time::Instant;
use cured::{renew_deadline, step, step_is_defined, Command, Event, NodeId, State};
use std::time::Duration;

fn at(n: u64) -> Instant {
    Instant::from_nanos(n)
}

#[test]
fn root_init_observes_on_time() {
    let (s, c) = step(State::Init, Event::Now(at(5)), at(5));
    assert!(matches!(s, State::ObservingFromInit));
    assert_eq!(c.len(), 1);
    assert!(matches!(c[0], Command::ObserveLease));
}

#[test]
fn root_acquired_lease_is_promoted() {
    let st = State::AcquiringLease { since: at(0), deadline: at(100) };
    let (s, c) = step(st, Event::AcquireSucceeded { term: 4, expiry: at(500) }, at(10));
    assert!(matches!(s, State::Promoting { term: 4, expiry } if expiry.as_nanos() == 500));
    assert!(matches!(c[0], Command::Promote { term: 4 }));
}

#[test]
fn root_acquiring_deadline() {
    let st = State::AcquiringLease { since: at(0), deadline: at(100) };
    let (s, c) = step(st, Event::Now(at(99)), at(99));
    assert!(matches!(s, State::AcquiringLease { .. }));
    assert!(c.is_empty());
    let (s, c) = step(s, Event::Now(at(100)), at(120));
    assert!(matches!(s, State::Init));
    assert!(matches!(c[0], Command::ArmTimer(t) if t.as_nanos() == 100));
}

#[test]
fn root_expired_promotion_and_leadership_demote() {
    let (s, c) = step(State::Promoting { term: 1, expiry: at(50) }, Event::Now(at(50)), at(50));
    assert!(matches!(s, State::Demoting));
    assert!(matches!(c[0], Command::StopPg));
    let (s, _) = step(State::Leader { term: 1, expiry: at(50) }, Event::Now(at(70)), at(70));
    assert!(matches!(s, State::Demoting));
    let st = State::Renewing { term: 1, expiry: at(80), deadline: at(60) };
    let (s, _) = step(st, Event::Now(at(60)), at(60));
    assert!(matches!(s, State::Demoting));
}

#[test]
fn root_returns_to_init_arm_timer_now() {
    let (s, c) = step(State::ReleasingLease, Event::Released, at(33));
    assert!(matches!(s, State::Init));
    assert!(matches!(c[0], Command::ArmTimer(t) if t.as_nanos() == 33));
    let (s, c) = step(
        State::ObservingFromStandby { leader: NodeId::new("b".to_string()) },
        Event::ObserveFailed,
        at(8),
    );
    assert!(matches!(s, State::Init));
    assert!(matches!(c[0], Command::ArmTimer(t) if t.as_nanos() == 8));
}

#[test]
fn root_stuck_is_absorbing() {
    let (s, c) = step(State::Demoting, Event::StopFailed, at(1));
    assert!(matches!(s, State::Stuck));
    assert!(c.is_empty());
    let (s, c) = step(s, Event::Released, at(2));
    assert!(matches!(s, State::Stuck));
    assert!(c.is_empty());
}

#[test]
fn root_step_definedness() {
    let e = Event::ObservedNoLeader;
    assert!(!step_is_defined(&State::ObservingFromInit, &e));
    assert!(step_is_defined(&State::Init, &e));
    let st = State::Leader { term: 1, expiry: at(10) };
    assert!(!step_is_defined(&st, &Event::Now(at(9))));
    assert!(step_is_defined(&st, &Event::Now(at(10))));
    let st = State::Promoting { term: 2, expiry: at(10) };
    assert!(!step_is_defined(&st, &Event::PromoteSucceeded { term: 2 }));
    assert!(step_is_defined(&st, &Event::PromoteSucceeded { term: 3 }));
    let st = State::Standby { leader: NodeId::new("x".to_string()) };
    assert!(!step_is_defined(&st, &Event::Now(at(0))));
}

#[test]
fn root_renew_deadline() {
    assert_eq!(renew_deadline(at(1000), Duration::from_nanos(300)).as_nanos(), 700);
    assert_eq!(renew_deadline(at(200), Duration::from_nanos(300)).as_nanos(), 200);
    assert_eq!(renew_deadline(at(300), Duration::from_nanos(300)).as_nanos(), 0);
}

#[test]
fn root_node_id_equality() {
    let a = NodeId::new("node-a".to_string());
    assert!(a == NodeId::new("node-a".to_string()));
    assert!(a != NodeId::new("node-b".to_string()));
    assert_eq!(a.as_str(), "node-a");
}
