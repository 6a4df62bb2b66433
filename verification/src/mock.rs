//! A scripted lease store and postgres controller, for demonstrations.
//!
//! The lease store shows a "ghost" leader for a few observations, then none;
//! every acquisition starts a new term; every fourth renewal after an
//! acquisition is lost; a release brings the ghost leader back. The caller
//! supplies the clock reading where a grant needs an expiry.
use crate::pepperoni::lease::{AcquireOutcome, LeaseError, LeaseGrant, LeaseObservation, NodeId, RenewOutcome};
use crate::pg::PgError;
use crate::time::{nanos_of, Instant};
use core::time::Duration;
use vstd::prelude::*;

verus! {

pub struct MockLease {
    node_id: NodeId,
    term: u64,
    renews_since_acquire: u32,
    observations_until_leader_vanishes: u32,
}

/// How many observations show the ghost leader before it vanishes.
pub const GHOST_LEADER_OBSERVATIONS: u32 = 4;

/// The name of the leader that the mock shows before it vanishes.
pub open spec fn ghost_leader_name() -> Seq<char> {
    seq!['n', 'o', 'd', 'e', '-', 'g', 'h', 'o', 's', 't']
}

pub struct MockLeaseView {
    pub node: Seq<char>,
    pub term: u64,
    pub renews_since_acquire: u32,
    pub observations_until_leader_vanishes: u32,
}

impl View for MockLease {
    type V = MockLeaseView;

    closed spec fn view(&self) -> MockLeaseView {
        MockLeaseView {
            node: self.node_id.0@,
            term: self.term,
            renews_since_acquire: self.renews_since_acquire,
            observations_until_leader_vanishes: self.observations_until_leader_vanishes,
        }
    }
}

/// Whether the renewal that brings the count of renewals since the last
/// acquisition to `n` is lost.
pub open spec fn renewal_is_lost(n: int) -> bool {
    n % 4 == 0
}

fn ghost_leader() -> (id: NodeId)
    ensures
        id.0@ == ghost_leader_name(),
{
    let name = String::from_str("node-ghost");
    proof {
        reveal_strlit("node-ghost");
    }
    assert(name@ =~= ghost_leader_name());
    NodeId(name)
}

/// A call that changes a mock lease store.
pub enum MockCall {
    Observe,
    TryAcquire,
    Renew,
    Release,
}

/// The store as `MockLease::new` makes it for the node called `node`.
pub open spec fn initial_view(node: Seq<char>) -> MockLeaseView {
    MockLeaseView {
        node,
        term: 0,
        renews_since_acquire: 0,
        observations_until_leader_vanishes: GHOST_LEADER_OBSERVATIONS,
    }
}

/// Whether an observation of the store in this state names the ghost leader.
pub open spec fn shows_ghost_leader(v: MockLeaseView) -> bool {
    v.observations_until_leader_vanishes > 0
}

/// The store after one call.
pub open spec fn after_call(v: MockLeaseView, c: MockCall) -> MockLeaseView {
    match c {
        MockCall::Observe => if shows_ghost_leader(v) {
            MockLeaseView {
                observations_until_leader_vanishes: (v.observations_until_leader_vanishes
                    - 1) as u32,
                ..v
            }
        } else {
            v
        },
        MockCall::TryAcquire => MockLeaseView {
            term: (v.term + 1) as u64,
            renews_since_acquire: 0,
            ..v
        },
        MockCall::Renew => MockLeaseView {
            renews_since_acquire: (v.renews_since_acquire + 1) as u32,
            ..v
        },
        MockCall::Release => MockLeaseView {
            observations_until_leader_vanishes: GHOST_LEADER_OBSERVATIONS,
            ..v
        },
    }
}

/// The store after a sequence of calls, in order.
pub open spec fn after_calls(v: MockLeaseView, calls: Seq<MockCall>) -> MockLeaseView
    decreases calls.len(),
{
    if calls.len() == 0 {
        v
    } else {
        after_call(after_calls(v, calls.drop_last()), calls.last())
    }
}

/// How many calls of a sequence are acquisitions.
pub open spec fn acquisitions(calls: Seq<MockCall>) -> nat
    decreases calls.len(),
{
    if calls.len() == 0 {
        0
    } else {
        acquisitions(calls.drop_last()) + if calls.last() is TryAcquire {
            1nat
        } else {
            0nat
        }
    }
}

/// How many calls of a sequence are observations.
pub open spec fn observations(calls: Seq<MockCall>) -> nat
    decreases calls.len(),
{
    if calls.len() == 0 {
        0
    } else {
        observations(calls.drop_last()) + if calls.last() is Observe {
            1nat
        } else {
            0nat
        }
    }
}

impl MockLease {
    pub fn new(node_id: NodeId) -> (m: Self)
        ensures
            m@ == initial_view(node_id.0@),
    {
        Self {
            node_id,
            term: 0,
            renews_since_acquire: 0,
            observations_until_leader_vanishes: GHOST_LEADER_OBSERVATIONS,
        }
    }

    /// The node this store acts for.
    pub fn node_id(&self) -> (id: &NodeId)
        ensures
            id.0@ == self@.node,
    {
        &self.node_id
    }

    /// The latest term granted.
    pub fn term(&self) -> (t: u64)
        ensures
            t == self@.term,
    {
        self.term
    }

    /// How many renewals were made since the last acquisition.
    pub fn renews_since_acquire(&self) -> (n: u32)
        ensures
            n == self@.renews_since_acquire,
    {
        self.renews_since_acquire
    }

    /// Shows the ghost leader while it has observations left, and then no leader.
    pub fn observe(&mut self) -> (r: Result<LeaseObservation, LeaseError>)
        ensures
            final(self)@ == after_call(old(self)@, MockCall::Observe),
            shows_ghost_leader(old(self)@) ==> (r matches Ok(LeaseObservation::Leader(id))
                && id.0@ == ghost_leader_name()),
            !shows_ghost_leader(old(self)@) ==> r matches Ok(LeaseObservation::NoLeader),
    {
        if self.observations_until_leader_vanishes > 0 {
            self.observations_until_leader_vanishes = self.observations_until_leader_vanishes - 1;
            return Ok(LeaseObservation::Leader(ghost_leader()));
        }
        Ok(LeaseObservation::NoLeader)
    }

    /// Always grants the lease, for a new term, expiring `ttl` after `now`.
    pub fn try_acquire(&mut self, ttl: Duration, now: Instant) -> (r: Result<AcquireOutcome, LeaseError>)
        requires
            old(self)@.term < u64::MAX,
            now@ + nanos_of(ttl) <= u64::MAX,
        ensures
            final(self)@ == after_call(old(self)@, MockCall::TryAcquire),
            final(self)@.term == old(self)@.term + 1,
            (r matches Ok(AcquireOutcome::Acquired(grant)) && grant.term == final(self)@.term
                && grant.expires_at@ == now@ + nanos_of(ttl)),
    {
        self.term = self.term + 1;
        self.renews_since_acquire = 0;
        Ok(AcquireOutcome::Acquired(LeaseGrant { term: self.term, expires_at: now.plus(ttl) }))
    }

    /// Renews the lease until `ttl` after `now`, except that every fourth renewal
    /// since the last acquisition is lost.
    pub fn renew(&mut self, ttl: Duration, now: Instant) -> (r: Result<RenewOutcome, LeaseError>)
        requires
            old(self)@.renews_since_acquire < u32::MAX,
            !renewal_is_lost(old(self)@.renews_since_acquire + 1) ==> now@ + nanos_of(ttl)
                <= u64::MAX,
        ensures
            final(self)@ == after_call(old(self)@, MockCall::Renew),
            final(self)@.renews_since_acquire == old(self)@.renews_since_acquire + 1,
            renewal_is_lost(final(self)@.renews_since_acquire as int) ==> r matches Ok(
                RenewOutcome::Lost,
            ),
            !renewal_is_lost(final(self)@.renews_since_acquire as int) ==> (r matches Ok(
                RenewOutcome::Renewed { expires_at },
            ) && expires_at@ == now@ + nanos_of(ttl)),
    {
        self.renews_since_acquire = self.renews_since_acquire + 1;
        // Fake a lost lease every 4th renewal so the demo shows a full
        // leader -> demote -> drain -> re-elect cycle instead of just
        // sitting as leader forever.
        if self.renews_since_acquire % 4 == 0 {
            return Ok(RenewOutcome::Lost);
        }
        Ok(RenewOutcome::Renewed { expires_at: now.plus(ttl) })
    }

    /// Releases the lease; some other node then appears to hold it for a while.
    pub fn release(&mut self) -> (r: Result<(), LeaseError>)
        ensures
            final(self)@ == after_call(old(self)@, MockCall::Release),
            r is Ok,
    {
        // Simulate some other node picking up the lease for a while
        // before it, too, disappears -- so next time around we go
        // through Standby again instead of racing straight back in.
        self.observations_until_leader_vanishes = GHOST_LEADER_OBSERVATIONS;
        Ok(())
    }
}

/// Granted terms count acquisitions: after any sequence of calls on a new store,
/// the term is the number of acquisitions made, so the `i`-th acquisition grants
/// term `i` and granted terms strictly increase.
pub proof fn lemma_terms_count_acquisitions(node: Seq<char>, calls: Seq<MockCall>)
    requires
        acquisitions(calls) < u64::MAX,
    ensures
        after_calls(initial_view(node), calls).term == acquisitions(calls),
        after_calls(initial_view(node), calls.push(MockCall::TryAcquire)).term == acquisitions(
            calls,
        ) + 1,
    decreases calls.len(),
{
    if calls.len() > 0 {
        lemma_terms_count_acquisitions(node, calls.drop_last());
    }
    assert(calls.push(MockCall::TryAcquire).drop_last() =~= calls);
}

/// The ghost leader vanishes after four observations: counting from a new store
/// or from its last release, the `c`-th observation (from zero) names the ghost
/// leader exactly when `c < 4`, and later ones see no leader.
pub proof fn lemma_ghost_leader_vanishes(v: MockLeaseView, calls: Seq<MockCall>)
    requires
        v.observations_until_leader_vanishes == GHOST_LEADER_OBSERVATIONS,
        forall|i: int| 0 <= i < calls.len() ==> !(#[trigger] calls[i] is Release),
    ensures
        after_calls(v, calls).observations_until_leader_vanishes == (if observations(calls)
            < GHOST_LEADER_OBSERVATIONS {
            GHOST_LEADER_OBSERVATIONS - observations(calls)
        } else {
            0
        }),
        shows_ghost_leader(after_calls(v, calls)) <==> observations(calls)
            < GHOST_LEADER_OBSERVATIONS,
    decreases calls.len(),
{
    if calls.len() > 0 {
        let rest = calls.drop_last();
        assert forall|i: int| 0 <= i < rest.len() implies !(#[trigger] rest[i] is Release) by {
            assert(rest[i] == calls[i]);
        }
        lemma_ghost_leader_vanishes(v, rest);
        assert(!(calls[calls.len() - 1] is Release));
    }
}

/// Both a new store and a released one start the count of ghost observations afresh.
pub proof fn lemma_ghost_count_restarts(node: Seq<char>, v: MockLeaseView)
    ensures
        initial_view(node).observations_until_leader_vanishes == GHOST_LEADER_OBSERVATIONS,
        after_call(v, MockCall::Release).observations_until_leader_vanishes
            == GHOST_LEADER_OBSERVATIONS,
{
}

/// Stand-in for real `pg_ctl` calls.
pub struct MockPg;

impl MockPg {
    pub fn new() -> (p: Self) {
        MockPg
    }

    /// Starting postgres as a standby always succeeds.
    pub fn start_standby(&mut self) -> (r: Result<(), PgError>)
        ensures
            r is Ok,
    {
        Ok(())
    }

    /// Promoting postgres always succeeds.
    pub fn promote(&mut self) -> (r: Result<(), PgError>)
        ensures
            r is Ok,
    {
        Ok(())
    }

    /// Stopping postgres always succeeds.
    pub fn stop(&mut self) -> (r: Result<(), PgError>)
        ensures
            r is Ok,
    {
        Ok(())
    }
}


/// `k` renewals in a row.
pub open spec fn renewals(k: nat) -> Seq<MockCall> {
    Seq::new(k, |i: int| MockCall::Renew)
}

/// An acquisition restarts the count of renewals: right after it the count is 0,
/// after `k` more renewals it is `k`, so renewals 1 to 3 after any acquisition
/// are renewed and the 4th is lost.
pub proof fn lemma_acquisition_restarts_renewals(v: MockLeaseView, k: nat)
    requires
        k <= 4,
    ensures
        after_call(v, MockCall::TryAcquire).renews_since_acquire == 0,
        after_calls(after_call(v, MockCall::TryAcquire), renewals(k)).renews_since_acquire == k,
        1 <= k <= 3 ==> !renewal_is_lost(k as int),
        renewal_is_lost(4),
    decreases k,
{
    if k > 0 {
        lemma_acquisition_restarts_renewals(v, (k - 1) as nat);
        assert(renewals(k).drop_last() =~= renewals((k - 1) as nat));
    }
}


/// Exactly the renewals whose count since the last acquisition is a multiple of
/// four are lost.
pub proof fn lemma_every_fourth_renewal_is_lost(n: int)
    ensures
        renewal_is_lost(n) <==> n % 4 == 0,
{
}

} // verus!
