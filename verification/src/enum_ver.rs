//! The decisions of a tick-driven failover driver.
//!
//! One tick of the driver starts from a `State` and the clock reading `now`.
//! `begin` says what to do first: either the tick is over with a new state, or
//! some outside work (a lease call, a postgres command) must be performed.
//! After each piece of work the driver hands its outcome to `resume`, which
//! again ends the tick or asks for more work. The driver performs the work and
//! reads the clock; these functions only decide.
use crate::pepperoni::lease::{AcquireOutcome, LeaseError, LeaseObservation, NodeId, RenewOutcome};
use crate::pg::PgError;
use crate::time::{nanos_of, Instant};
use crate::Config;
use core::time::Duration;
use vstd::prelude::*;

verus! {

pub type Term = u64;

pub enum State {
    Init,
    Electing { since: Instant },
    Promoting { term: Term, expiry: Instant },
    Leader { term: Term, expiry: Instant },
    Standby { leader: NodeId },
    Demoting,
}

/// What a driver works with: a lease client, a postgres controller, and the configuration.
pub struct Ctx<L, P> {
    pub lease: L,
    pub pg: P,
    pub cfg: Config,
}

/// Outside work that the driver performs within a tick.
pub enum Work {
    /// Observe who holds the lease.
    Observe,
    /// Start postgres as a standby of `leader`.
    StartStandby { leader: NodeId },
    /// Try to take the lease for `ttl`.
    TryAcquire { ttl: Duration },
    /// Promote postgres, giving up after `timeout`.
    Promote { timeout: Duration },
    /// Renew the lease for `ttl`, giving up after `timeout`.
    Renew { ttl: Duration, timeout: Duration },
    /// Stop postgres.
    StopPg,
    /// Release the lease.
    ReleaseLease,
    /// Wait forever, and let a watchdog kill the process.
    Hang,
}

/// The outcome of a piece of work. `None` in `Promoted` and `Renewed` means
/// that the timeout elapsed first.
pub enum Outcome {
    Observed(Result<LeaseObservation, LeaseError>),
    StandbyStarted { leader: NodeId },
    Acquired(Result<AcquireOutcome, LeaseError>),
    Promoted(Option<Result<(), PgError>>),
    Renewed(Option<Result<RenewOutcome, LeaseError>>),
    Stopped(Result<(), PgError>),
    Released(Result<(), LeaseError>),
}

/// What comes next within a tick.
pub enum Plan {
    /// The tick is over; this is the new state.
    Done(State),
    /// This work must be performed and its outcome handed to `resume`.
    Perform(Work),
}

// ---------------------------------------------------------------------------
// Model.
// ---------------------------------------------------------------------------

pub enum StateView {
    Init,
    Electing { since: nat },
    Promoting { term: Term, expiry: nat },
    Leader { term: Term, expiry: nat },
    Standby { leader: Seq<char> },
    Demoting,
}

pub enum WorkView {
    Observe,
    StartStandby { leader: Seq<char> },
    TryAcquire { ttl: nat },
    Promote { timeout: nat },
    Renew { ttl: nat, timeout: nat },
    StopPg,
    ReleaseLease,
    Hang,
}

pub enum PlanView {
    Done(StateView),
    Perform(WorkView),
}

impl View for State {
    type V = StateView;

    open spec fn view(&self) -> StateView {
        match self {
            State::Init => StateView::Init,
            State::Electing { since } => StateView::Electing { since: since@ },
            State::Promoting { term, expiry } => StateView::Promoting {
                term: *term,
                expiry: expiry@,
            },
            State::Leader { term, expiry } => StateView::Leader { term: *term, expiry: expiry@ },
            State::Standby { leader } => StateView::Standby { leader: leader.0@ },
            State::Demoting => StateView::Demoting,
        }
    }
}

impl View for Work {
    type V = WorkView;

    open spec fn view(&self) -> WorkView {
        match self {
            Work::Observe => WorkView::Observe,
            Work::StartStandby { leader } => WorkView::StartStandby { leader: leader.0@ },
            Work::TryAcquire { ttl } => WorkView::TryAcquire { ttl: nanos_of(*ttl) },
            Work::Promote { timeout } => WorkView::Promote { timeout: nanos_of(*timeout) },
            Work::Renew { ttl, timeout } => WorkView::Renew {
                ttl: nanos_of(*ttl),
                timeout: nanos_of(*timeout),
            },
            Work::StopPg => WorkView::StopPg,
            Work::ReleaseLease => WorkView::ReleaseLease,
            Work::Hang => WorkView::Hang,
        }
    }
}

impl View for Plan {
    type V = PlanView;

    open spec fn view(&self) -> PlanView {
        match self {
            Plan::Done(s) => PlanView::Done(s@),
            Plan::Perform(w) => PlanView::Perform(w@),
        }
    }
}

/// Where a tick would overflow the clock: the election deadline, or the instant
/// at which a leader starts renewing, lies past the last representable instant.
pub open spec fn begin_overflows(s: StateView, cfg: &Config, now: nat) -> bool {
    match s {
        StateView::Electing { since } => since + nanos_of(cfg.lease_ttl) > u64::MAX,
        StateView::Leader { expiry, .. } => now < expiry && now + nanos_of(cfg.renew_margin)
            > u64::MAX,
        _ => false,
    }
}

/// What a tick does first.
pub open spec fn plan_begin(s: StateView, cfg: &Config, now: nat) -> PlanView {
    match s {
        StateView::Init => PlanView::Perform(WorkView::Observe),
        // Already past the election budget: don't even try.
        StateView::Electing { since } => if since + nanos_of(cfg.lease_ttl) < now {
            PlanView::Done(StateView::Init)
        } else {
            PlanView::Perform(WorkView::TryAcquire { ttl: nanos_of(cfg.lease_ttl) })
        },
        StateView::Promoting { expiry, .. } => if expiry < now {
            PlanView::Done(StateView::Demoting)
        } else {
            PlanView::Perform(WorkView::Promote { timeout: (expiry - now) as nat })
        },
        StateView::Leader { term, expiry } => if now >= expiry {
            PlanView::Done(StateView::Demoting)
        } else if now + nanos_of(cfg.renew_margin) >= expiry {
            PlanView::Perform(
                WorkView::Renew { ttl: nanos_of(cfg.lease_ttl), timeout: (expiry - now) as nat },
            )
        } else {
            PlanView::Done(s)
        },
        StateView::Standby { .. } => PlanView::Perform(WorkView::Observe),
        StateView::Demoting => PlanView::Perform(WorkView::StopPg),
    }
}

/// What a tick does once a piece of work has this outcome.
pub open spec fn plan_resume(s: StateView, now: nat, o: Outcome) -> PlanView {
    let unchanged = PlanView::Done(s);
    match s {
        StateView::Init => match o {
            Outcome::Observed(r) => match r {
                Ok(LeaseObservation::Leader(id)) => PlanView::Perform(
                    WorkView::StartStandby { leader: id.0@ },
                ),
                _ => PlanView::Done(StateView::Electing { since: now }),
            },
            Outcome::StandbyStarted { leader } => PlanView::Done(
                StateView::Standby { leader: leader.0@ },
            ),
            _ => unchanged,
        },
        StateView::Electing { .. } => match o {
            Outcome::Acquired(r) => match r {
                Ok(AcquireOutcome::Acquired(grant)) => PlanView::Done(
                    StateView::Promoting { term: grant.term, expiry: grant.expires_at@ },
                ),
                _ => PlanView::Done(StateView::Init),
            },
            _ => unchanged,
        },
        StateView::Promoting { term, expiry } => match o {
            Outcome::Promoted(r) => match r {
                Some(Ok(())) => PlanView::Done(StateView::Leader { term, expiry }),
                _ => PlanView::Done(StateView::Demoting),
            },
            _ => unchanged,
        },
        StateView::Leader { term, .. } => match o {
            Outcome::Renewed(r) => match r {
                Some(Ok(RenewOutcome::Renewed { expires_at })) => PlanView::Done(
                    StateView::Leader { term, expiry: expires_at@ },
                ),
                _ => PlanView::Done(StateView::Demoting),
            },
            _ => unchanged,
        },
        StateView::Standby { .. } => match o {
            Outcome::Observed(r) => match r {
                Ok(LeaseObservation::Leader(id)) => PlanView::Done(
                    StateView::Standby { leader: id.0@ },
                ),
                _ => PlanView::Done(StateView::Electing { since: now }),
            },
            _ => unchanged,
        },
        // Hang if either stopping or releasing fails, and let a watchdog kill the process.
        StateView::Demoting => match o {
            Outcome::Stopped(r) => if r is Ok {
                PlanView::Perform(WorkView::ReleaseLease)
            } else {
                PlanView::Perform(WorkView::Hang)
            },
            Outcome::Released(r) => if r is Ok {
                PlanView::Done(StateView::Init)
            } else {
                PlanView::Perform(WorkView::Hang)
            },
            _ => unchanged,
        },
    }
}

fn node_copy(id: &NodeId) -> (c: NodeId)
    ensures
        c.0@ == id.0@,
{
    NodeId(id.0.clone())
}

/// A state equal to `state`.
fn same_state(state: &State) -> (s: State)
    ensures
        s@ == state@,
{
    match state {
        State::Init => State::Init,
        State::Electing { since } => State::Electing { since: *since },
        State::Promoting { term, expiry } => State::Promoting { term: *term, expiry: *expiry },
        State::Leader { term, expiry } => State::Leader { term: *term, expiry: *expiry },
        State::Standby { leader } => State::Standby { leader: node_copy(leader) },
        State::Demoting => State::Demoting,
    }
}

/// What a tick starting from `state` at `now` does first.
pub fn begin(state: &State, cfg: &Config, now: Instant) -> (p: Plan)
    requires
        !begin_overflows(state@, cfg, now@),
    ensures
        p@ == plan_begin(state@, cfg, now@),
{
    match state {
        State::Init => Plan::Perform(Work::Observe),
        State::Electing { since } => {
            let deadline = since.plus(cfg.lease_ttl);
            if deadline.checked_duration_since(now).is_none() {
                // already past budget, don't even try
                Plan::Done(State::Init)
            } else {
                Plan::Perform(Work::TryAcquire { ttl: cfg.lease_ttl })
            }
        },
        State::Promoting { expiry, .. } => match expiry.checked_duration_since(now) {
            // already expired
            None => Plan::Done(State::Demoting),
            Some(remaining) => Plan::Perform(Work::Promote { timeout: remaining }),
        },
        State::Leader { term, expiry } => {
            if now.is_at_or_after(expiry) {
                // already expired
                return Plan::Done(State::Demoting);
            }
            // We renew if we are in the proper range from our expiration.
            if now.plus(cfg.renew_margin).is_at_or_after(expiry) {
                let remaining = expiry.saturating_duration_since(now);
                Plan::Perform(Work::Renew { ttl: cfg.lease_ttl, timeout: remaining })
            } else {
                Plan::Done(State::Leader { term: *term, expiry: *expiry })
            }
        },
        State::Standby { .. } => Plan::Perform(Work::Observe),
        State::Demoting => Plan::Perform(Work::StopPg),
    }
}

/// What a tick starting from `state` at `now` does once a piece of work had `outcome`.
pub fn resume(state: &State, now: Instant, outcome: Outcome) -> (p: Plan)
    ensures
        p@ == plan_resume(state@, now@, outcome),
{
    match state {
        State::Init => match outcome {
            Outcome::Observed(r) => match r {
                // A leader exists: start postgres as its standby.
                Ok(LeaseObservation::Leader(id)) => Plan::Perform(Work::StartStandby { leader: id }),
                _ => Plan::Done(State::Electing { since: now }),
            },
            Outcome::StandbyStarted { leader } => Plan::Done(State::Standby { leader }),
            _ => Plan::Done(same_state(state)),
        },
        State::Electing { .. } => match outcome {
            Outcome::Acquired(r) => match r {
                Ok(AcquireOutcome::Acquired(grant)) => Plan::Done(
                    State::Promoting { term: grant.term, expiry: grant.expires_at },
                ),
                _ => Plan::Done(State::Init),
            },
            _ => Plan::Done(same_state(state)),
        },
        State::Promoting { term, expiry } => match outcome {
            Outcome::Promoted(r) => match r {
                Some(Ok(())) => Plan::Done(State::Leader { term: *term, expiry: *expiry }),
                _ => Plan::Done(State::Demoting),
            },
            _ => Plan::Done(same_state(state)),
        },
        State::Leader { term, .. } => match outcome {
            Outcome::Renewed(r) => match r {
                Some(Ok(RenewOutcome::Renewed { expires_at })) => Plan::Done(
                    State::Leader { term: *term, expiry: expires_at },
                ),
                _ => Plan::Done(State::Demoting),
            },
            _ => Plan::Done(same_state(state)),
        },
        State::Standby { .. } => match outcome {
            Outcome::Observed(r) => match r {
                Ok(LeaseObservation::Leader(id)) => Plan::Done(State::Standby { leader: id }),
                _ => Plan::Done(State::Electing { since: now }),
            },
            _ => Plan::Done(same_state(state)),
        },
        State::Demoting => match outcome {
            Outcome::Stopped(r) => match r {
                Ok(()) => Plan::Perform(Work::ReleaseLease),
                Err(_) => Plan::Perform(Work::Hang),
            },
            Outcome::Released(r) => match r {
                Ok(()) => Plan::Done(State::Init),
                Err(_) => Plan::Perform(Work::Hang),
            },
            _ => Plan::Done(same_state(state)),
        },
    }
}


// ---------------------------------------------------------------------------
// Laws of a tick.
// ---------------------------------------------------------------------------

/// Work done under a lease is bounded by the lease: a promotion or a renewal is
/// given exactly the time left until the lease expires.
pub proof fn lemma_work_ends_with_the_lease(s: StateView, cfg: &Config, now: nat)
    requires
        !begin_overflows(s, cfg, now),
    ensures
        plan_begin(s, cfg, now) matches PlanView::Perform(WorkView::Promote { timeout }) ==> (
        s is Promoting && now + timeout == s->Promoting_expiry),
        plan_begin(s, cfg, now) matches PlanView::Perform(WorkView::Renew { timeout, .. }) ==> (
        s is Leader && now + timeout == s->Leader_expiry),
{
}

/// A lease that has expired is never worked under: the tick demotes at once.
pub proof fn lemma_expired_lease_demotes(s: StateView, cfg: &Config, now: nat)
    requires
        (s is Promoting && s->Promoting_expiry < now) || (s is Leader && s->Leader_expiry <= now),
    ensures
        !begin_overflows(s, cfg, now),
        plan_begin(s, cfg, now) == PlanView::Done(StateView::Demoting),
{
}

/// A tick ends in leadership for a term only by keeping it, by a confirmed
/// promotion of that term, or by a confirmed renewal while leading in that term.
pub proof fn lemma_leadership_requires_confirmation(
    s: StateView,
    now: nat,
    o: Outcome,
    term: Term,
    expiry: nat,
)
    requires
        plan_resume(s, now, o) == PlanView::Done(StateView::Leader { term, expiry }),
    ensures
        ({
            ||| s == (StateView::Leader { term, expiry })
            ||| (s == (StateView::Promoting { term, expiry }) && o matches Outcome::Promoted(
                Some(Ok(())),
            ))
            ||| (s is Leader && s->Leader_term == term && o matches Outcome::Renewed(
                Some(Ok(RenewOutcome::Renewed { .. })),
            ))
        }),
{
}

/// A demoting node that fails to stop postgres or to release the lease hangs, for
/// a watchdog to kill; it returns to the initial state only once both succeeded.
pub proof fn lemma_failed_demotion_hangs(now: nat, o: Outcome)
    ensures
        o matches Outcome::Stopped(Err(_)) ==> plan_resume(StateView::Demoting, now, o)
            == PlanView::Perform(WorkView::Hang),
        o matches Outcome::Released(Err(_)) ==> plan_resume(StateView::Demoting, now, o)
            == PlanView::Perform(WorkView::Hang),
        plan_resume(StateView::Demoting, now, o) == PlanView::Done(StateView::Init) ==> o matches Outcome::Released(Ok(())),
{
}


/// Whether an outcome answers a piece of work.
pub open spec fn answers(w: WorkView, o: Outcome) -> bool {
    match w {
        WorkView::Observe => o is Observed,
        WorkView::StartStandby { leader } => (o matches Outcome::StandbyStarted { leader: l }
            && l.0@ == leader),
        WorkView::TryAcquire { .. } => o is Acquired,
        WorkView::Promote { .. } => o is Promoted,
        WorkView::Renew { .. } => o is Renewed,
        WorkView::StopPg => o is Stopped,
        WorkView::ReleaseLease => o is Released,
        WorkView::Hang => false,
    }
}

/// Whether an outcome is of a kind that a tick from `s` asks for.
pub open spec fn answers_tick(s: StateView, o: Outcome) -> bool {
    match s {
        StateView::Init => o is Observed || o is StandbyStarted,
        StateView::Electing { .. } => o is Acquired,
        StateView::Promoting { .. } => o is Promoted,
        StateView::Leader { .. } => o is Renewed,
        StateView::Standby { .. } => o is Observed,
        StateView::Demoting => o is Stopped || o is Released,
    }
}

/// Every piece of work that a tick from `s` asks for, at its start or after an
/// outcome, is answered only by outcomes of the kinds that the tick handles.
pub proof fn lemma_tick_asks_only_its_work(
    s: StateView,
    cfg: &Config,
    now: nat,
    earlier: Outcome,
    o: Outcome,
    w: WorkView,
)
    requires
        !begin_overflows(s, cfg, now),
        plan_begin(s, cfg, now) == PlanView::Perform(w) || plan_resume(s, now, earlier)
            == PlanView::Perform(w),
        answers(w, o),
    ensures
        answers_tick(s, o),
{
}

/// Over one tick, leadership and promotion are reached only the right way: a tick
/// that ends without work ends in leadership only for a leader of that term; an
/// outcome that answers the tick's work ends in leadership only from promoting or
/// leading in that same term, and in promoting only from electing, once the lease
/// was acquired, for the term and expiry of the grant.
pub proof fn lemma_tick_reaches_leadership_rightly(
    s: StateView,
    cfg: &Config,
    now: nat,
    o: Outcome,
    term: Term,
    expiry: nat,
)
    requires
        !begin_overflows(s, cfg, now),
    ensures
        plan_begin(s, cfg, now) == PlanView::Done(StateView::Leader { term, expiry }) ==> s == (
        StateView::Leader { term, expiry }),
        !(plan_begin(s, cfg, now) is Done && plan_begin(s, cfg, now)->Done_0 is Promoting),
        answers_tick(s, o) && plan_resume(s, now, o) == PlanView::Done(
            StateView::Leader { term, expiry },
        ) ==> ((s is Promoting && s->Promoting_term == term) || (s is Leader && s->Leader_term
            == term)),
        answers_tick(s, o) && plan_resume(s, now, o) == PlanView::Done(
            StateView::Promoting { term, expiry },
        ) ==> (s is Electing && (o matches Outcome::Acquired(
            Ok(AcquireOutcome::Acquired(g)),
        ) && g.term == term && g.expires_at@ == expiry)),
{
}


/// After renewal work, a leader stays leader only on a confirmed renewal, then
/// until the renewed expiry and in the same term; a lost lease, an error or a
/// timeout demotes it.
pub proof fn lemma_renewal_outcome(
    term: Term,
    expiry: nat,
    now: nat,
    r: Option<Result<RenewOutcome, LeaseError>>,
)
    ensures
        plan_resume(StateView::Leader { term, expiry }, now, Outcome::Renewed(r)) == (match r {
            Some(Ok(RenewOutcome::Renewed { expires_at })) => PlanView::Done(
                StateView::Leader { term, expiry: expires_at@ },
            ),
            _ => PlanView::Done(StateView::Demoting),
        }),
{
}

/// After promotion work, the node leads in its term until the lease's expiry
/// exactly when the promotion completed successfully in time; otherwise it demotes.
pub proof fn lemma_promotion_outcome(
    term: Term,
    expiry: nat,
    now: nat,
    r: Option<Result<(), PgError>>,
)
    ensures
        plan_resume(StateView::Promoting { term, expiry }, now, Outcome::Promoted(r)) == (if r
            is Some && r->0 is Ok {
            PlanView::Done(StateView::Leader { term, expiry })
        } else {
            PlanView::Done(StateView::Demoting)
        }),
{
}

/// After an attempt to take the lease, an electing node promotes for the grant's
/// term and expiry exactly when the lease was granted; otherwise it starts over.
pub proof fn lemma_acquisition_outcome(
    since: nat,
    now: nat,
    r: Result<AcquireOutcome, LeaseError>,
)
    ensures
        plan_resume(StateView::Electing { since }, now, Outcome::Acquired(r)) == (match r {
            Ok(AcquireOutcome::Acquired(g)) => PlanView::Done(
                StateView::Promoting { term: g.term, expiry: g.expires_at@ },
            ),
            _ => PlanView::Done(StateView::Init),
        }),
{
}

/// After observing, a standby follows the node that holds the lease, and elects
/// from the tick's start where no node holds it or the observation failed.
pub proof fn lemma_standby_observation_outcome(
    leader: Seq<char>,
    now: nat,
    r: Result<LeaseObservation, LeaseError>,
)
    ensures
        plan_resume(StateView::Standby { leader }, now, Outcome::Observed(r)) == (match r {
            Ok(LeaseObservation::Leader(id)) => PlanView::Done(
                StateView::Standby { leader: id.0@ },
            ),
            _ => PlanView::Done(StateView::Electing { since: now }),
        }),
{
}


/// At the start of a tick: a node at the initial state or in standby observes the
/// lease; a demoting node stops postgres; an electing node tries to take the lease
/// for the configured length while its election budget (the lease length from
/// the start of the election) lasts, and starts over once it is spent; a leader
/// renews for the configured length once within the renewal margin of its expiry,
/// and otherwise keeps leading unchanged.
pub proof fn lemma_tick_start(s: StateView, cfg: &Config, now: nat)
    requires
        !begin_overflows(s, cfg, now),
    ensures
        (s == StateView::Init || s is Standby) ==> plan_begin(s, cfg, now) == PlanView::Perform(
            WorkView::Observe,
        ),
        s == StateView::Demoting ==> plan_begin(s, cfg, now) == PlanView::Perform(
            WorkView::StopPg,
        ),
        s is Electing ==> plan_begin(s, cfg, now) == (if now <= s->Electing_since + nanos_of(
            cfg.lease_ttl,
        ) {
            PlanView::Perform(WorkView::TryAcquire { ttl: nanos_of(cfg.lease_ttl) })
        } else {
            PlanView::Done(StateView::Init)
        }),
        (s is Leader && now < s->Leader_expiry && now + nanos_of(cfg.renew_margin)
            < s->Leader_expiry) ==> plan_begin(s, cfg, now) == PlanView::Done(s),
        (s is Leader && now < s->Leader_expiry && now + nanos_of(cfg.renew_margin)
            >= s->Leader_expiry) ==> plan_begin(s, cfg, now) == PlanView::Perform(
            WorkView::Renew {
                ttl: nanos_of(cfg.lease_ttl),
                timeout: (s->Leader_expiry - now) as nat,
            },
        ),
{
}

/// A node at the initial state that sees a leader starts postgres as that
/// leader's standby, and follows it once started; where no node holds the lease
/// or the observation failed, it elects from the tick's start. A demoting node
/// releases the lease once postgres has stopped, and returns to the initial state
/// once the lease is released.
pub proof fn lemma_start_and_demotion_outcomes(
    now: nat,
    r: Result<LeaseObservation, LeaseError>,
    leader: NodeId,
)
    ensures
        plan_resume(StateView::Init, now, Outcome::Observed(r)) == (match r {
            Ok(LeaseObservation::Leader(id)) => PlanView::Perform(
                WorkView::StartStandby { leader: id.0@ },
            ),
            _ => PlanView::Done(StateView::Electing { since: now }),
        }),
        plan_resume(StateView::Init, now, Outcome::StandbyStarted { leader }) == PlanView::Done(
            StateView::Standby { leader: leader.0@ },
        ),
        plan_resume(StateView::Demoting, now, Outcome::Stopped(Ok(()))) == PlanView::Perform(
            WorkView::ReleaseLease,
        ),
        plan_resume(StateView::Demoting, now, Outcome::Released(Ok(()))) == PlanView::Done(
            StateView::Init,
        ),
{
}

} // verus!
