use cured::proxy::{drain_step, DrainStep, ProxyHandle};
use cured::time::Instant;
use std::time::Duration;

#[test]
fn instant_arithmetic() {
    let t = Instant::from_nanos(1_000);
    assert_eq!(t.checked_add(Duration::from_nanos(500)).unwrap().as_nanos(), 1_500);
    assert!(t.checked_add(Duration::from_nanos(u64::MAX)).is_none());
    assert_eq!(t.checked_sub(Duration::from_nanos(400)).unwrap().as_nanos(), 600);
    assert!(t.checked_sub(Duration::from_nanos(1_001)).is_none());
    assert_eq!(t.plus(Duration::from_secs(1)).as_nanos(), 1_000_001_000);
    let u = Instant::from_nanos(1_200);
    assert_eq!(u.checked_duration_since(t), Some(Duration::from_nanos(200)));
    assert_eq!(t.checked_duration_since(u), None);
    assert_eq!(t.saturating_duration_since(u), Duration::ZERO);
    assert_eq!(u.saturating_duration_since(t), Duration::from_nanos(200));
    assert!(u.is_at_or_after(&t));
    assert!(t.is_at_or_after(&t));
    assert!(!t.is_at_or_after(&u));
}

#[test]
fn drain_decisions() {
    let d = Instant::from_nanos(100);
    assert_eq!(drain_step(0, Instant::from_nanos(500), d), DrainStep::Drained);
    assert_eq!(drain_step(2, Instant::from_nanos(100), d), DrainStep::TimedOut);
    assert_eq!(drain_step(2, Instant::from_nanos(99), d), DrainStep::Wait);
}

#[test]
fn proxy_handle_switch_and_count() {
    let h = ProxyHandle::new();
    assert!(!h.is_accepting());
    assert_eq!(h.active_connections(), 0);
    h.open();
    assert!(h.is_accepting());
    let h2 = h.clone();
    h2.connection_opened();
    h2.connection_opened();
    assert_eq!(h.active_connections(), 2);
    h.connection_closed();
    assert_eq!(h2.active_connections(), 1);
    h2.close();
    assert!(!h.is_accepting());
}
