use cured::enum_ver::{begin, resume, Outcome, Plan, State, Work};
use cured::lease::LeaseError as RootLeaseError;
use cured::pepperoni::lease::{AcquireOutcome, LeaseError, LeaseGrant, LeaseObservation, NodeId, RenewOutcome};
use cured::pg::PgError;
use cured::time::Instant;
use cured::Config;
use std::time::Duration;

fn cfg() -> Config {
    Config {
        id: cured::NodeId::new("node-a".to_string()),
        timeout: Duration::from_nanos(30),
        lease_ttl: Duration::from_nanos(600),
        renew_margin: Duration::from_nanos(60),
    }
}

fn at(n: u64) -> Instant {
    Instant::from_nanos(n)
}

#[test]
fn init_observes_then_starts_standby() {
    assert!(matches!(begin(&State::Init, &cfg(), at(0)), Plan::Perform(Work::Observe)));
    let leader = NodeId("node-b".to_string());
    let p = resume(&State::Init, at(0), Outcome::Observed(Ok(LeaseObservation::Leader(leader))));
    let leader = match p {
        Plan::Perform(Work::StartStandby { leader }) => leader,
        _ => panic!("expected to start a standby"),
    };
    assert_eq!(leader.0, "node-b");
    let p = resume(&State::Init, at(0), Outcome::StandbyStarted { leader });
    assert!(matches!(p, Plan::Done(State::Standby { leader }) if leader.0 == "node-b"));
}

#[test]
fn init_without_leader_elects() {
    let p = resume(&State::Init, at(42), Outcome::Observed(Ok(LeaseObservation::NoLeader)));
    assert!(matches!(p, Plan::Done(State::Electing { since }) if since.as_nanos() == 42));
    let p = resume(&State::Init, at(43), Outcome::Observed(Err(LeaseError::Unreachable)));
    assert!(matches!(p, Plan::Done(State::Electing { since }) if since.as_nanos() == 43));
}

#[test]
fn electing_within_budget_tries_to_acquire() {
    let st = State::Electing { since: at(100) };
    assert!(matches!(begin(&st, &cfg(), at(700)), Plan::Perform(Work::TryAcquire { ttl }) if ttl == Duration::from_nanos(600)));
    assert!(matches!(begin(&st, &cfg(), at(701)), Plan::Done(State::Init)));
    let grant = LeaseGrant { term: 3, expires_at: at(900) };
    let p = resume(&st, at(100), Outcome::Acquired(Ok(AcquireOutcome::Acquired(grant))));
    assert!(matches!(p, Plan::Done(State::Promoting { term: 3, expiry }) if expiry.as_nanos() == 900));
    let p = resume(&st, at(100), Outcome::Acquired(Ok(AcquireOutcome::Contended)));
    assert!(matches!(p, Plan::Done(State::Init)));
    let p = resume(&st, at(100), Outcome::Acquired(Err(LeaseError::Conflict)));
    assert!(matches!(p, Plan::Done(State::Init)));
}

#[test]
fn promotion_is_bounded_by_the_lease() {
    let st = State::Promoting { term: 2, expiry: at(500) };
    assert!(matches!(begin(&st, &cfg(), at(200)), Plan::Perform(Work::Promote { timeout }) if timeout == Duration::from_nanos(300)));
    assert!(matches!(begin(&st, &cfg(), at(501)), Plan::Done(State::Demoting)));
    assert!(matches!(resume(&st, at(0), Outcome::Promoted(Some(Ok(())))), Plan::Done(State::Leader { term: 2, expiry }) if expiry.as_nanos() == 500));
    assert!(matches!(resume(&st, at(0), Outcome::Promoted(None)), Plan::Done(State::Demoting)));
    let failed = Outcome::Promoted(Some(Err(PgError::Command("boom".to_string()))));
    assert!(matches!(resume(&st, at(0), failed), Plan::Done(State::Demoting)));
}

#[test]
fn leader_renews_near_expiry() {
    let st = State::Leader { term: 4, expiry: at(1000) };
    assert!(matches!(begin(&st, &cfg(), at(900)), Plan::Done(State::Leader { term: 4, .. })));
    match begin(&st, &cfg(), at(940)) {
        Plan::Perform(Work::Renew { ttl, timeout }) => {
            assert_eq!(ttl, Duration::from_nanos(600));
            assert_eq!(timeout, Duration::from_nanos(60));
        }
        _ => panic!("expected a renewal"),
    }
    assert!(matches!(begin(&st, &cfg(), at(1000)), Plan::Done(State::Demoting)));
    let ok = Outcome::Renewed(Some(Ok(RenewOutcome::Renewed { expires_at: at(1600) })));
    assert!(matches!(resume(&st, at(940), ok), Plan::Done(State::Leader { term: 4, expiry }) if expiry.as_nanos() == 1600));
    assert!(matches!(resume(&st, at(940), Outcome::Renewed(Some(Ok(RenewOutcome::Lost)))), Plan::Done(State::Demoting)));
    assert!(matches!(resume(&st, at(940), Outcome::Renewed(None)), Plan::Done(State::Demoting)));
}

#[test]
fn standby_follows_leader_changes() {
    let st = State::Standby { leader: NodeId("b".to_string()) };
    assert!(matches!(begin(&st, &cfg(), at(0)), Plan::Perform(Work::Observe)));
    let p = resume(&st, at(0), Outcome::Observed(Ok(LeaseObservation::Leader(NodeId("c".to_string())))));
    assert!(matches!(p, Plan::Done(State::Standby { leader }) if leader.0 == "c"));
    let p = resume(&st, at(5), Outcome::Observed(Ok(LeaseObservation::NoLeader)));
    assert!(matches!(p, Plan::Done(State::Electing { since }) if since.as_nanos() == 5));
}

#[test]
fn demotion_stops_releases_or_hangs() {
    let st = State::Demoting;
    assert!(matches!(begin(&st, &cfg(), at(0)), Plan::Perform(Work::StopPg)));
    assert!(matches!(resume(&st, at(0), Outcome::Stopped(Ok(()))), Plan::Perform(Work::ReleaseLease)));
    assert!(matches!(resume(&st, at(0), Outcome::Released(Ok(()))), Plan::Done(State::Init)));
    let stop_failed = Outcome::Stopped(Err(PgError::Command("x".to_string())));
    assert!(matches!(resume(&st, at(0), stop_failed), Plan::Perform(Work::Hang)));
    assert!(matches!(resume(&st, at(0), Outcome::Released(Err(LeaseError::NotHolder))), Plan::Perform(Work::Hang)));
}

#[test]
fn unrelated_outcome_keeps_state() {
    let st = State::Standby { leader: NodeId("b".to_string()) };
    let p = resume(&st, at(0), Outcome::Released(Ok(())));
    assert!(matches!(p, Plan::Done(State::Standby { leader }) if leader.0 == "b"));
    let _ = RootLeaseError::Backend("x".to_string());
}
