//! The shared switch and connection count of the client proxy, and the decision
//! of a drain: whether the proxy has drained, has run out of time, or must wait.
//!
//! The switch and the count are shared with other threads, so nothing is
//! promised of the values read back: another thread may change them at any time.
use crate::time::Instant;
use std::sync::Arc;
use core::sync::atomic::{AtomicBool, AtomicUsize, Ordering};
use vstd::prelude::*;

verus! {

#[derive(Clone)]
pub struct ProxyHandle {
    accepting: Arc<AtomicBool>,
    active_conns: Arc<AtomicUsize>,
}

impl ProxyHandle {
    /// A handle that refuses connections and counts none.
    pub fn new() -> (h: Self) {
        Self {
            accepting: Arc::new(AtomicBool::new(false)),
            active_conns: Arc::new(AtomicUsize::new(0)),
        }
    }

    /// Start accepting connections.
    pub fn open(&self) {
        self.accepting.store(true, Ordering::SeqCst);
    }

    /// Stop accepting connections.
    pub fn close(&self) {
        self.accepting.store(false, Ordering::SeqCst);
    }

    /// Whether connections are being accepted.
    pub fn is_accepting(&self) -> (b: bool) {
        self.accepting.load(Ordering::SeqCst)
    }

    /// How many connections are being proxied.
    pub fn active_connections(&self) -> (n: usize) {
        self.active_conns.load(Ordering::SeqCst)
    }

    /// Count one more proxied connection.
    pub fn connection_opened(&self) {
        self.active_conns.fetch_add(1, Ordering::SeqCst);
    }

    /// Count one proxied connection less.
    pub fn connection_closed(&self) {
        self.active_conns.fetch_sub(1, Ordering::SeqCst);
    }
}

/// Where a drain stands.
#[derive(Clone, Copy, PartialEq, Eq, Structural, Debug)]
pub enum DrainStep {
    /// No connection is left.
    Drained,
    /// Connections are left and the deadline has come.
    TimedOut,
    /// Connections are left and there is time: wait, then look again.
    Wait,
}

/// Where a drain with `active` connections left stands at `now`, given its `deadline`.
pub fn drain_step(active: usize, now: Instant, deadline: Instant) -> (s: DrainStep)
    ensures
        s == (if active == 0 {
            DrainStep::Drained
        } else if now@ >= deadline@ {
            DrainStep::TimedOut
        } else {
            DrainStep::Wait
        }),
{
    if active == 0 {
        return DrainStep::Drained;
    }
    if now.is_at_or_after(&deadline) {
        return DrainStep::TimedOut;
    }
    DrainStep::Wait
}

} // verus!
