use cured::mock::{MockLease, MockPg, GHOST_LEADER_OBSERVATIONS};
use cured::pepperoni::lease::{AcquireOutcome, LeaseObservation, NodeId, RenewOutcome};
use cured::time::Instant;
use std::time::Duration;

fn lease() -> MockLease {
    MockLease::new(NodeId("node-a".to_string()))
}

#[test]
fn ghost_leader_vanishes_after_four_observations() {
    let mut m = lease();
    assert_eq!(GHOST_LEADER_OBSERVATIONS, 4);
    for _ in 0..4 {
        match m.observe() {
            Ok(LeaseObservation::Leader(id)) => assert_eq!(id.0, "node-ghost"),
            _ => panic!("expected the ghost leader"),
        }
    }
    assert!(matches!(m.observe(), Ok(LeaseObservation::NoLeader)));
    assert!(matches!(m.observe(), Ok(LeaseObservation::NoLeader)));
}

#[test]
fn acquisition_starts_new_term_expiring_after_ttl() {
    let mut m = lease();
    assert_eq!(m.term(), 0);
    let r = m.try_acquire(Duration::from_nanos(600), Instant::from_nanos(1000));
    match r {
        Ok(AcquireOutcome::Acquired(g)) => {
            assert_eq!(g.term, 1);
            assert_eq!(g.expires_at.as_nanos(), 1600);
        }
        _ => panic!("expected a grant"),
    }
    let r = m.try_acquire(Duration::from_nanos(1), Instant::from_nanos(0));
    assert!(matches!(r, Ok(AcquireOutcome::Acquired(g)) if g.term == 2));
    assert_eq!(m.term(), 2);
    assert_eq!(m.node_id().0, "node-a");
}

#[test]
fn every_fourth_renewal_is_lost() {
    let mut m = lease();
    let _ = m.try_acquire(Duration::from_nanos(10), Instant::from_nanos(0));
    for round in 1..=8u32 {
        let r = m.renew(Duration::from_nanos(10), Instant::from_nanos(5));
        if round % 4 == 0 {
            assert!(matches!(r, Ok(RenewOutcome::Lost)));
        } else {
            assert!(matches!(r, Ok(RenewOutcome::Renewed { expires_at }) if expires_at.as_nanos() == 15));
        }
    }
    // a new acquisition restarts the count
    let _ = m.try_acquire(Duration::from_nanos(10), Instant::from_nanos(0));
    for _ in 0..3 {
        assert!(matches!(m.renew(Duration::from_nanos(10), Instant::from_nanos(0)), Ok(RenewOutcome::Renewed { .. })));
    }
}

#[test]
fn release_brings_the_ghost_back() {
    let mut m = lease();
    for _ in 0..5 {
        let _ = m.observe();
    }
    assert!(m.release().is_ok());
    assert!(matches!(m.observe(), Ok(LeaseObservation::Leader(_))));
}

#[test]
fn mock_pg_commands_succeed() {
    let mut pg = MockPg::new();
    assert!(pg.start_standby().is_ok());
    assert!(pg.promote().is_ok());
    assert!(pg.stop().is_ok());
}

#[test]
fn granted_terms_count_acquisitions() {
    let mut m = lease();
    for i in 1..=5u64 {
        let _ = m.observe();
        let r = m.try_acquire(Duration::from_nanos(1), Instant::from_nanos(0));
        assert!(matches!(r, Ok(AcquireOutcome::Acquired(g)) if g.term == i));
        let _ = m.renew(Duration::from_nanos(1), Instant::from_nanos(0));
        assert!(m.release().is_ok());
    }
}
