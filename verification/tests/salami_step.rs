use cured::salami::{step, Command, Commands, Config, Event, NodeId, State};
use std::time::Duration;

fn cfg() -> Config {
    Config {
        id: NodeId::new(7),
        timeout: Duration::from_millis(300),
        lease_ttl: Duration::from_secs(6),
        renew_margin: Duration::from_millis(600),
    }
}

fn cmds(c: Commands) -> Vec<Command> {
    c.into_vec()
}

#[test]
fn init_timeout_observes() {
    let (s, c) = step(State::Init, Event::Timeout, &cfg());
    assert!(matches!(s, State::ObservingFromInit));
    let c = cmds(c);
    assert_eq!(c.len(), 1);
    assert!(matches!(c[0], Command::ObserveLease));
}

#[test]
fn init_ignores_other_events() {
    let (s, c) = step(State::Init, Event::ObservedNoLeader, &cfg());
    assert!(matches!(s, State::Init));
    assert_eq!(c.len(), 0);
    assert_eq!(cmds(c).len(), 0);
}

#[test]
fn observing_own_id_demotes() {
    let (s, c) = step(State::ObservingFromInit, Event::ObservedLeader(NodeId::new(7)), &cfg());
    assert!(matches!(s, State::Demoting));
    let c = cmds(c);
    assert_eq!(c.len(), 1);
    assert!(matches!(c[0], Command::StopPg));
    let (s, _) = step(
        State::ObservingFromStandby { leader: NodeId::new(3) },
        Event::ObservedLeader(NodeId::new(7)),
        &cfg(),
    );
    assert!(matches!(s, State::Demoting));
}

#[test]
fn observing_other_leader_starts_standby() {
    let (s, c) = step(State::ObservingFromInit, Event::ObservedLeader(NodeId::new(3)), &cfg());
    assert!(matches!(s, State::StartingStandby { leader } if leader == NodeId::new(3)));
    let c = cmds(c);
    assert!(matches!(c[0], Command::StartStandby));
}

#[test]
fn standby_reobserves_and_returns() {
    let (s, c) = step(State::Standby { leader: NodeId::new(3) }, Event::Timeout, &cfg());
    assert!(matches!(s, State::ObservingFromStandby { leader } if leader.value() == 3));
    assert!(matches!(cmds(c)[0], Command::ObserveLease));
    let (s, c) = step(
        State::ObservingFromStandby { leader: NodeId::new(3) },
        Event::ObservedLeader(NodeId::new(4)),
        &cfg(),
    );
    assert!(matches!(s, State::Standby { leader } if leader.value() == 4));
    let c = cmds(c);
    assert!(matches!(c[0], Command::WakeAfter(d) if d == Duration::from_millis(300)));
}

#[test]
fn standby_of_self_demotes() {
    let (s, c) = step(State::Standby { leader: NodeId::new(7) }, Event::Timeout, &cfg());
    assert!(matches!(s, State::Demoting));
    assert!(matches!(cmds(c)[0], Command::StopPg));
}

#[test]
fn no_leader_tries_to_acquire_with_timer() {
    let (s, c) = step(State::ObservingFromInit, Event::ObservedNoLeader, &cfg());
    assert!(matches!(s, State::AcquiringLease));
    let c = cmds(c);
    assert_eq!(c.len(), 2);
    assert!(matches!(c[0], Command::TryAcquireLease { ttl } if ttl == Duration::from_secs(6)));
    assert!(matches!(c[1], Command::WakeAfter(d) if d == Duration::from_secs(6)));
}

#[test]
fn observe_failure_at_start_elects() {
    let (s, c) = step(State::ObservingFromInit, Event::ObserveFailed, &cfg());
    assert!(matches!(s, State::AcquiringLease));
    assert_eq!(c.len(), 2);
    assert!(matches!(c.get(0), Some(Command::TryAcquireLease { ttl }) if ttl == Duration::from_secs(6)));
    assert!(matches!(c.get(1), Some(Command::WakeAfter(d)) if d == Duration::from_secs(6)));
    assert!(c.get(2).is_none());
}

#[test]
fn observe_failure_in_standby_restarts_immediately() {
    let (s, c) = step(
        State::ObservingFromStandby { leader: NodeId::new(3) },
        Event::ObserveFailed,
        &cfg(),
    );
    assert!(matches!(s, State::Init));
    assert!(matches!(c.get(0), Some(Command::WakeAfter(d)) if d == Duration::ZERO));
    assert!(c.get(1).is_none());
}

#[test]
fn node_ids_equal_exactly_for_equal_numbers() {
    assert!(NodeId::new(5) == NodeId::new(5));
    assert!(NodeId::new(5) != NodeId::new(6));
}

#[test]
fn acquire_then_promote_then_lead() {
    let (s, c) = step(
        State::AcquiringLease,
        Event::AcquireSucceeded { term: 5, ttl: Duration::from_secs(4) },
        &cfg(),
    );
    assert!(matches!(s, State::Promoting { term: 5, ttl } if ttl == Duration::from_secs(4)));
    let c = cmds(c);
    assert!(matches!(c[0], Command::Promote { term: 5 }));
    assert!(matches!(c[1], Command::WakeAfter(d) if d == Duration::from_secs(4)));
    let (s, c) = step(s, Event::PromoteSucceeded { term: 5 }, &cfg());
    assert!(matches!(s, State::Leader { term: 5 }));
    // renewal is due renew_margin before the lease ends: 4s - 600ms
    let c = cmds(c);
    assert!(matches!(c[0], Command::WakeAfter(d) if d == Duration::from_millis(3400)));
}

#[test]
fn renewal_wake_saturates_at_zero() {
    let (s, c) = step(
        State::Promoting { term: 1, ttl: Duration::from_millis(100) },
        Event::PromoteSucceeded { term: 1 },
        &cfg(),
    );
    assert!(matches!(s, State::Leader { term: 1 }));
    assert!(matches!(cmds(c)[0], Command::WakeAfter(d) if d == Duration::ZERO));
}

#[test]
fn promote_for_other_term_is_ignored() {
    let (s, c) = step(
        State::Promoting { term: 1, ttl: Duration::from_secs(1) },
        Event::PromoteSucceeded { term: 2 },
        &cfg(),
    );
    assert!(matches!(s, State::Promoting { term: 1, .. }));
    assert_eq!(c.len(), 0);
    let (s, _) = step(s, Event::PromoteFailed { term: 2 }, &cfg());
    assert!(matches!(s, State::Promoting { term: 1, .. }));
    let (s, c) = step(s, Event::PromoteFailed { term: 1 }, &cfg());
    assert!(matches!(s, State::Demoting));
    assert!(matches!(cmds(c)[0], Command::StopPg));
}

#[test]
fn promote_timeout_demotes() {
    let (s, _) = step(State::Promoting { term: 1, ttl: Duration::from_secs(1) }, Event::Timeout, &cfg());
    assert!(matches!(s, State::Demoting));
}

#[test]
fn leader_renews_and_keeps_term() {
    let (s, c) = step(State::Leader { term: 9 }, Event::Timeout, &cfg());
    assert!(matches!(s, State::Renewing { term: 9 }));
    let c = cmds(c);
    assert!(matches!(c[0], Command::RenewLease { term: 9, ttl } if ttl == Duration::from_secs(6)));
    assert!(matches!(c[1], Command::WakeAfter(d) if d == Duration::from_millis(600)));
    let (s, c) = step(s, Event::RenewSucceeded { term: 9, ttl: Duration::from_secs(2) }, &cfg());
    assert!(matches!(s, State::Leader { term: 9 }));
    assert!(matches!(cmds(c)[0], Command::WakeAfter(d) if d == Duration::from_millis(1400)));
}

#[test]
fn renew_failure_or_timeout_demotes() {
    let (s, _) = step(State::Renewing { term: 2 }, Event::RenewFailed { term: 2 }, &cfg());
    assert!(matches!(s, State::Demoting));
    let (s, _) = step(State::Renewing { term: 2 }, Event::Timeout, &cfg());
    assert!(matches!(s, State::Demoting));
    let (s, c) = step(State::Renewing { term: 2 }, Event::RenewFailed { term: 3 }, &cfg());
    assert!(matches!(s, State::Renewing { term: 2 }));
    assert_eq!(c.len(), 0);
}

#[test]
fn demotion_releases_then_restarts() {
    let (s, c) = step(State::Demoting, Event::Stopped, &cfg());
    assert!(matches!(s, State::ReleasingLease));
    assert!(matches!(cmds(c)[0], Command::ReleaseLease));
    let (s, c) = step(s, Event::Released, &cfg());
    assert!(matches!(s, State::Init));
    assert!(matches!(cmds(c)[0], Command::WakeAfter(d) if d == Duration::ZERO));
}

#[test]
fn failed_demotion_gets_stuck_for_good() {
    let (s, c) = step(State::Demoting, Event::StopFailed, &cfg());
    assert!(matches!(s, State::Stuck));
    assert_eq!(c.len(), 0);
    let (s, c) = step(State::ReleasingLease, Event::ReleaseFailed, &cfg());
    assert!(matches!(s, State::Stuck));
    assert_eq!(c.len(), 0);
    for e in [Event::Timeout, Event::Released, Event::Stopped, Event::ObservedNoLeader] {
        let (s2, c) = step(State::Stuck, e, &cfg());
        assert!(matches!(s2, State::Stuck));
        assert_eq!(c.len(), 0);
    }
    let _ = s;
}

#[test]
fn starting_standby_outcomes() {
    let (s, c) = step(State::StartingStandby { leader: NodeId::new(2) }, Event::StandbyStarted, &cfg());
    assert!(matches!(s, State::Standby { leader } if leader.value() == 2));
    assert!(matches!(cmds(c)[0], Command::WakeAfter(d) if d == Duration::from_millis(300)));
    let (s, _) = step(State::StartingStandby { leader: NodeId::new(2) }, Event::StandbyStartFailed, &cfg());
    assert!(matches!(s, State::Init));
}

#[test]
fn acquiring_lease_failures_restart() {
    let (s, _) = step(State::AcquiringLease, Event::AcquireFailed, &cfg());
    assert!(matches!(s, State::Init));
    let (s, _) = step(State::AcquiringLease, Event::Timeout, &cfg());
    assert!(matches!(s, State::Init));
}
