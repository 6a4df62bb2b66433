//! Decision logic for postgres failover: which node holds the lease, when to
//! promote, renew, demote, or start as a standby.
//!
//! The crate root holds the instant-driven state machine; `salami` holds the
//! timer-driven one, `enum_ver` the decisions of a tick-driven driver, and the
//! other modules the data that lease stores, postgres controls and the proxy
//! exchange with it.
pub mod enum_ver;
pub mod lease;
pub mod mock;
pub mod pepperoni;
pub mod pg;
pub mod proxy;
pub mod salami;
pub mod time;

use crate::time::{nanos_of, Instant};
use core::time::Duration;
use vstd::prelude::*;

verus! {

/// The name of a node.
pub struct NodeId(String);

impl View for NodeId {
    type V = Seq<char>;

    closed spec fn view(&self) -> Seq<char> {
        self.0@
    }
}

impl NodeId {
    /// The node called `name`.
    pub fn new(name: String) -> (id: NodeId)
        ensures
            id@ == name@,
    {
        NodeId(name)
    }

    /// The node's name.
    pub fn as_str(&self) -> (s: &str)
        ensures
            s@ == self@,
    {
        self.0.as_str()
    }
}

impl PartialEq for NodeId {
    fn eq(&self, other: &Self) -> (r: bool) {
        self.0 == other.0
    }
}

impl vstd::std_specs::cmp::PartialEqSpecImpl for NodeId {
    open spec fn obeys_eq_spec() -> bool {
        true
    }

    open spec fn eq_spec(&self, other: &NodeId) -> bool {
        self@ == other@
    }
}

pub type Term = u64;

pub struct Config {
    /// The current node's id. Static and set by the user.
    pub id: NodeId,
    /// How often standby re-checks who the leader is.
    pub timeout: Duration,
    /// How long a lease/promotion lasts once acquired.
    pub lease_ttl: Duration,
    /// How early before expiry we start trying to renew.
    pub renew_margin: Duration,
}

pub enum State {
    /// Initial state. Will only transition to [State::ObservingFromInit].
    Init,
    /// Initial lease observation state, observation in pending.
    ObservingFromInit,
    /// Re-observing state from standby.
    ObservingFromStandby { leader: NodeId },
    AcquiringLease { since: Instant, deadline: Instant },
    Promoting { term: Term, expiry: Instant },
    Leader { term: Term, expiry: Instant },
    Renewing { term: Term, expiry: Instant, deadline: Instant },
    StartingStandby { leader: NodeId },
    Standby { leader: NodeId },
    Demoting,
    ReleasingLease,
    // terminal state, we should let watchdog kill
    Stuck,
}

pub enum Event {
    /// Time has passed, so the state must be re-evaluated.
    Now(Instant),
    /// The lease is reachable and a leader is present.
    ObservedLeader(NodeId),
    /// The lease is reachable and no leader is present
    ObservedNoLeader,
    /// The lease is unreachable.
    ObserveFailed,
    /// Acquiring a lease has succeeded.
    AcquireSucceeded { term: Term, expiry: Instant },
    /// Acquiring a lease has failed.
    AcquireFailed,
    /// Promotion has succeeded.
    PromoteSucceeded { term: Term },
    /// Promotion has failed.
    PromoteFailed { term: Term },
    /// Lease renewal has succeeded
    RenewSucceeded { term: Term, expiry: Instant },
    /// Lease renewal has not succeeded.
    RenewFailed { term: Term },
    /// A node has been started in standby successfully.
    StandbyStarted,
    /// A node has failed to start.
    StandbyStartFailed,
    /// A node has stopped succesfully.
    Stopped,
    /// A node has failed to stop.
    StopFailed,
    /// A lease has been released voluntarily.
    Released,
    /// Releasing a lease has failed.
    ReleaseFailed,
}

pub enum Command {
    ObserveLease,
    TryAcquireLease { ttl: Duration },
    Promote { term: Term },
    RenewLease { term: Term, ttl: Duration },
    StartStandby,
    StopPg,
    ReleaseLease,
    ArmTimer(Instant),
}

// ---------------------------------------------------------------------------
// Mathematical model: instants and durations by nanoseconds, node ids by name.
// ---------------------------------------------------------------------------

pub enum StateView {
    Init,
    ObservingFromInit,
    ObservingFromStandby { leader: Seq<char> },
    AcquiringLease { since: nat, deadline: nat },
    Promoting { term: Term, expiry: nat },
    Leader { term: Term, expiry: nat },
    Renewing { term: Term, expiry: nat, deadline: nat },
    StartingStandby { leader: Seq<char> },
    Standby { leader: Seq<char> },
    Demoting,
    ReleasingLease,
    Stuck,
}

pub enum EventView {
    Now(nat),
    ObservedLeader(Seq<char>),
    ObservedNoLeader,
    ObserveFailed,
    AcquireSucceeded { term: Term, expiry: nat },
    AcquireFailed,
    PromoteSucceeded { term: Term },
    PromoteFailed { term: Term },
    RenewSucceeded { term: Term, expiry: nat },
    RenewFailed { term: Term },
    StandbyStarted,
    StandbyStartFailed,
    Stopped,
    StopFailed,
    Released,
    ReleaseFailed,
}

pub enum CommandView {
    ObserveLease,
    TryAcquireLease { ttl: nat },
    Promote { term: Term },
    RenewLease { term: Term, ttl: nat },
    StartStandby,
    StopPg,
    ReleaseLease,
    ArmTimer(nat),
}

impl View for State {
    type V = StateView;

    open spec fn view(&self) -> StateView {
        match self {
            State::Init => StateView::Init,
            State::ObservingFromInit => StateView::ObservingFromInit,
            State::ObservingFromStandby { leader } => StateView::ObservingFromStandby {
                leader: leader@,
            },
            State::AcquiringLease { since, deadline } => StateView::AcquiringLease {
                since: since@,
                deadline: deadline@,
            },
            State::Promoting { term, expiry } => StateView::Promoting {
                term: *term,
                expiry: expiry@,
            },
            State::Leader { term, expiry } => StateView::Leader { term: *term, expiry: expiry@ },
            State::Renewing { term, expiry, deadline } => StateView::Renewing {
                term: *term,
                expiry: expiry@,
                deadline: deadline@,
            },
            State::StartingStandby { leader } => StateView::StartingStandby { leader: leader@ },
            State::Standby { leader } => StateView::Standby { leader: leader@ },
            State::Demoting => StateView::Demoting,
            State::ReleasingLease => StateView::ReleasingLease,
            State::Stuck => StateView::Stuck,
        }
    }
}

impl View for Event {
    type V = EventView;

    open spec fn view(&self) -> EventView {
        match self {
            Event::Now(t) => EventView::Now(t@),
            Event::ObservedLeader(id) => EventView::ObservedLeader(id@),
            Event::ObservedNoLeader => EventView::ObservedNoLeader,
            Event::ObserveFailed => EventView::ObserveFailed,
            Event::AcquireSucceeded { term, expiry } => EventView::AcquireSucceeded {
                term: *term,
                expiry: expiry@,
            },
            Event::AcquireFailed => EventView::AcquireFailed,
            Event::PromoteSucceeded { term } => EventView::PromoteSucceeded { term: *term },
            Event::PromoteFailed { term } => EventView::PromoteFailed { term: *term },
            Event::RenewSucceeded { term, expiry } => EventView::RenewSucceeded {
                term: *term,
                expiry: expiry@,
            },
            Event::RenewFailed { term } => EventView::RenewFailed { term: *term },
            Event::StandbyStarted => EventView::StandbyStarted,
            Event::StandbyStartFailed => EventView::StandbyStartFailed,
            Event::Stopped => EventView::Stopped,
            Event::StopFailed => EventView::StopFailed,
            Event::Released => EventView::Released,
            Event::ReleaseFailed => EventView::ReleaseFailed,
        }
    }
}

impl View for Command {
    type V = CommandView;

    open spec fn view(&self) -> CommandView {
        match self {
            Command::ObserveLease => CommandView::ObserveLease,
            Command::TryAcquireLease { ttl } => CommandView::TryAcquireLease { ttl: nanos_of(*ttl) },
            Command::Promote { term } => CommandView::Promote { term: *term },
            Command::RenewLease { term, ttl } => CommandView::RenewLease {
                term: *term,
                ttl: nanos_of(*ttl),
            },
            Command::StartStandby => CommandView::StartStandby,
            Command::StopPg => CommandView::StopPg,
            Command::ReleaseLease => CommandView::ReleaseLease,
            Command::ArmTimer(t) => CommandView::ArmTimer(t@),
        }
    }
}

/// The commands of a list, by their model.
pub open spec fn commands_view(v: Seq<Command>) -> Seq<CommandView> {
    v.map_values(|c: Command| c@)
}

/// The state and event pairs on which `step` is not defined yet: its answer there
/// depends on configuration that it is not given.
pub open spec fn unfinished(s: StateView, e: EventView) -> bool {
    match s {
        StateView::ObservingFromInit => e is ObservedLeader || e is ObservedNoLeader
            || e is ObserveFailed,
        StateView::ObservingFromStandby { .. } => e is ObservedLeader || e is ObservedNoLeader,
        StateView::Promoting { term, .. } => e is PromoteSucceeded && e->PromoteSucceeded_term
            == term,
        StateView::Leader { expiry, .. } => e is Now && e->Now_0 < expiry,
        StateView::Renewing { term, .. } => e is RenewSucceeded && e->RenewSucceeded_term == term,
        StateView::StartingStandby { .. } => e is StandbyStarted,
        StateView::Standby { .. } => e is Now,
        _ => false,
    }
}

/// The state and commands that `step` gives where it is defined, the clock
/// reading `now`.
pub open spec fn next(s: StateView, e: EventView, now: nat) -> (StateView, Seq<CommandView>) {
    let none = Seq::<CommandView>::empty();
    let stop = seq![CommandView::StopPg];
    match s {
        StateView::Init => match e {
            EventView::Now(_) => (StateView::ObservingFromInit, seq![CommandView::ObserveLease]),
            _ => (s, none),
        },
        StateView::ObservingFromStandby { .. } => match e {
            EventView::ObserveFailed => (StateView::Init, seq![CommandView::ArmTimer(now)]),
            _ => (s, none),
        },
        StateView::AcquiringLease { deadline, .. } => match e {
            EventView::Now(t) => if t >= deadline {
                (StateView::Init, seq![CommandView::ArmTimer(t)])
            } else {
                (s, none)
            },
            EventView::AcquireSucceeded { term, expiry } => (
                StateView::Promoting { term, expiry },
                seq![CommandView::Promote { term }],
            ),
            EventView::AcquireFailed => (StateView::Init, seq![CommandView::ArmTimer(now)]),
            _ => (s, none),
        },
        StateView::Promoting { term, expiry } => match e {
            EventView::Now(t) => if t >= expiry {
                (StateView::Demoting, stop)
            } else {
                (s, none)
            },
            EventView::PromoteFailed { term: t } => if t == term {
                (StateView::Demoting, stop)
            } else {
                (s, none)
            },
            _ => (s, none),
        },
        StateView::Leader { expiry, .. } => match e {
            EventView::Now(t) => if t >= expiry {
                (StateView::Demoting, stop)
            } else {
                (s, none)
            },
            _ => (s, none),
        },
        StateView::Renewing { term, deadline, .. } => match e {
            EventView::Now(t) => if t >= deadline {
                (StateView::Demoting, stop)
            } else {
                (s, none)
            },
            EventView::RenewFailed { term: t } => if t == term {
                (StateView::Demoting, stop)
            } else {
                (s, none)
            },
            _ => (s, none),
        },
        StateView::StartingStandby { .. } => match e {
            EventView::StandbyStartFailed => (StateView::Init, seq![CommandView::ArmTimer(now)]),
            _ => (s, none),
        },
        StateView::Demoting => match e {
            EventView::Stopped => (StateView::ReleasingLease, seq![CommandView::ReleaseLease]),
            EventView::StopFailed => (StateView::Stuck, none),
            _ => (s, none),
        },
        StateView::ReleasingLease => match e {
            EventView::Released => (StateView::Init, seq![CommandView::ArmTimer(now)]),
            EventView::ReleaseFailed => (StateView::Stuck, none),
            _ => (s, none),
        },
        _ => (s, none),
    }
}

/// Whether `step` is defined on this state and event.
pub fn step_is_defined(state: &State, event: &Event) -> (b: bool)
    ensures
        b == !unfinished(state@, event@),
{
    match state {
        State::ObservingFromInit => match event {
            Event::ObservedLeader(_) | Event::ObservedNoLeader | Event::ObserveFailed => false,
            _ => true,
        },
        State::ObservingFromStandby { .. } => match event {
            Event::ObservedLeader(_) | Event::ObservedNoLeader => false,
            _ => true,
        },
        State::Promoting { term, .. } => match event {
            Event::PromoteSucceeded { term: t } => *t != *term,
            _ => true,
        },
        State::Leader { expiry, .. } => match event {
            Event::Now(t) => t.is_at_or_after(expiry),
            _ => true,
        },
        State::Renewing { term, .. } => match event {
            Event::RenewSucceeded { term: t, .. } => *t != *term,
            _ => true,
        },
        State::StartingStandby { .. } => match event {
            Event::StandbyStarted => false,
            _ => true,
        },
        State::Standby { .. } => match event {
            Event::Now(_) => false,
            _ => true,
        },
        _ => true,
    }
}

/// Advances the state machine by one event, the clock reading `now`.
pub fn step(state: State, event: Event, now: Instant) -> (res: (State, Vec<Command>))
    requires
        !unfinished(state@, event@),
    ensures
        res.0@ == next(state@, event@, now@).0,
        commands_view(res.1@) == next(state@, event@, now@).1,
{
    let res: (State, Vec<Command>) = match state {
        // If we get triggered immediately, we should attempt to observe the current lease,
        // otherwise, we do nothing.
        State::Init => match event {
            Event::Now(_) => (State::ObservingFromInit, vec![Command::ObserveLease]),
            _ => (State::Init, vec![]),
        },
        State::ObservingFromInit => match event {
            Event::ObservedLeader(_) | Event::ObservedNoLeader | Event::ObserveFailed => {
                vstd::pervasive::unreached()
            },
            _ => (State::ObservingFromInit, vec![]),
        },
        State::ObservingFromStandby { leader } => match event {
            Event::ObserveFailed => (State::Init, vec![Command::ArmTimer(now)]),
            Event::ObservedLeader(_) | Event::ObservedNoLeader => vstd::pervasive::unreached(),
            _ => (State::ObservingFromStandby { leader }, vec![]),
        },
        State::AcquiringLease { since, deadline } => match event {
            Event::Now(t) => if t.is_at_or_after(&deadline) {
                (State::Init, vec![Command::ArmTimer(t)])
            } else {
                (State::AcquiringLease { since, deadline }, vec![])
            },
            Event::AcquireSucceeded { term, expiry } => (
                State::Promoting { term, expiry },
                vec![Command::Promote { term }],
            ),
            Event::AcquireFailed => (State::Init, vec![Command::ArmTimer(now)]),
            _ => (State::AcquiringLease { since, deadline }, vec![]),
        },
        State::Promoting { term, expiry } => match event {
            Event::Now(t) => if t.is_at_or_after(&expiry) {
                (State::Demoting, vec![Command::StopPg])
            } else {
                (State::Promoting { term, expiry }, vec![])
            },
            Event::PromoteFailed { term: t } => if t == term {
                (State::Demoting, vec![Command::StopPg])
            } else {
                (State::Promoting { term, expiry }, vec![])
            },
            Event::PromoteSucceeded { term: t } => if t == term {
                vstd::pervasive::unreached()
            } else {
                (State::Promoting { term, expiry }, vec![])
            },
            _ => (State::Promoting { term, expiry }, vec![]),
        },
        State::Leader { term, expiry } => match event {
            Event::Now(t) => if t.is_at_or_after(&expiry) {
                (State::Demoting, vec![Command::StopPg])
            } else {
                vstd::pervasive::unreached()
            },
            _ => (State::Leader { term, expiry }, vec![]),
        },
        State::Renewing { term, expiry, deadline } => match event {
            Event::Now(t) => if t.is_at_or_after(&deadline) {
                (State::Demoting, vec![Command::StopPg])
            } else {
                (State::Renewing { term, expiry, deadline }, vec![])
            },
            Event::RenewSucceeded { term: t, expiry: e } => if t == term {
                vstd::pervasive::unreached()
            } else {
                (State::Renewing { term, expiry, deadline }, vec![])
            },
            Event::RenewFailed { term: t } => if t == term {
                (State::Demoting, vec![Command::StopPg])
            } else {
                (State::Renewing { term, expiry, deadline }, vec![])
            },
            _ => (State::Renewing { term, expiry, deadline }, vec![]),
        },
        State::StartingStandby { leader } => match event {
            Event::StandbyStarted => vstd::pervasive::unreached(),
            Event::StandbyStartFailed => (State::Init, vec![Command::ArmTimer(now)]),
            _ => (State::StartingStandby { leader }, vec![]),
        },
        State::Standby { leader } => match event {
            Event::Now(_) => vstd::pervasive::unreached(),
            _ => (State::Standby { leader }, vec![]),
        },
        State::Demoting => match event {
            Event::Stopped => (State::ReleasingLease, vec![Command::ReleaseLease]),
            Event::StopFailed => (State::Stuck, vec![]),
            _ => (State::Demoting, vec![]),
        },
        State::ReleasingLease => match event {
            Event::Released => (State::Init, vec![Command::ArmTimer(now)]),
            Event::ReleaseFailed => (State::Stuck, vec![]),
            _ => (State::ReleasingLease, vec![]),
        },
        State::Stuck => (State::Stuck, vec![]),
    };
    assert(commands_view(res.1@) =~= next(state@, event@, now@).1);
    res
}

/// The instant `renew_margin` before `expiry`, or `expiry` itself where that would
/// lie before the clock's origin.
pub fn renew_deadline(expiry: Instant, renew_margin: Duration) -> (d: Instant)
    ensures
        d@ == (if expiry@ >= nanos_of(renew_margin) {
            expiry@ - nanos_of(renew_margin)
        } else {
            expiry@ as int
        }),
{
    match expiry.checked_sub(renew_margin) {
        Some(d) => d,
        None => expiry,
    }
}


// ---------------------------------------------------------------------------
// Laws of the state machine, where it is defined.
// ---------------------------------------------------------------------------

/// Once stuck, a node stays stuck and asks for nothing, whatever happens.
pub proof fn lemma_stuck_is_absorbing(e: EventView, now: nat)
    ensures
        !unfinished(StateView::Stuck, e),
        next(StateView::Stuck, e, now) == (StateView::Stuck, Seq::<CommandView>::empty()),
{
}

/// A step asks for at most one command; it asks for none exactly when it leaves the
/// state as it was or gets stuck.
pub proof fn lemma_silent_steps(s: StateView, e: EventView, now: nat)
    requires
        !unfinished(s, e),
    ensures
        next(s, e, now).1.len() <= 1,
        next(s, e, now).1.len() == 0 <==> (next(s, e, now).0 == s || next(s, e, now).0
            == StateView::Stuck),
{
}

/// Every entry into demotion asks to stop postgres, and for nothing else.
pub proof fn lemma_demotion_stops_postgres(s: StateView, e: EventView, now: nat)
    requires
        !unfinished(s, e),
        next(s, e, now).0 == StateView::Demoting,
        s != StateView::Demoting,
    ensures
        next(s, e, now).1 == seq![CommandView::StopPg],
{
}

/// Every return to the initial state arms a timer for the current time: the clock
/// reading, or the time that the event reports.
pub proof fn lemma_return_to_init_arms_timer(s: StateView, e: EventView, now: nat)
    requires
        !unfinished(s, e),
        next(s, e, now).0 == StateView::Init,
        s != StateView::Init,
    ensures
        next(s, e, now).1 == seq![CommandView::ArmTimer(now)] || (e is Now && next(s, e, now).1
            == seq![CommandView::ArmTimer(e->Now_0)]),
{
}

/// Once its expiry (or, while renewing, its deadline) has passed, a promotion or a
/// leadership is given up: the node demotes and stops postgres.
pub proof fn lemma_expired_lease_demotes(s: StateView, t: nat, now: nat)
    requires
        (s is Promoting && t >= s->Promoting_expiry) || (s is Leader && t >= s->Leader_expiry)
            || (s is Renewing && t >= s->Renewing_deadline),
    ensures
        !unfinished(s, EventView::Now(t)),
        next(s, EventView::Now(t), now) == (StateView::Demoting, seq![CommandView::StopPg]),
{
}

/// A granted lease is promoted for exactly the term and expiry that came with it.
pub proof fn lemma_grant_is_promoted(since: nat, deadline: nat, term: Term, expiry: nat, now: nat)
    ensures
        next(
            StateView::AcquiringLease { since, deadline },
            EventView::AcquireSucceeded { term, expiry },
            now,
        ) == (StateView::Promoting { term, expiry }, seq![CommandView::Promote { term }]),
{
}


/// Once postgres has stopped, a demoting node releases the lease and asks for
/// nothing else; no step from demotion goes straight back to the initial state,
/// and a released lease returns the node to it with a timer at the clock reading.
pub proof fn lemma_stopped_postgres_releases(e: EventView, now: nat)
    ensures
        next(StateView::Demoting, EventView::Stopped, now) == (
            StateView::ReleasingLease,
            seq![CommandView::ReleaseLease],
        ),
        next(StateView::Demoting, e, now).0 != StateView::Init,
        next(StateView::ReleasingLease, EventView::Released, now) == (
            StateView::Init,
            seq![CommandView::ArmTimer(now)],
        ),
{
}


/// A node at the initial state observes the lease whenever time passes, and
/// ignores every other event.
pub proof fn lemma_init_observes_on_time(e: EventView, now: nat)
    ensures
        e is Now ==> next(StateView::Init, e, now) == (
            StateView::ObservingFromInit,
            seq![CommandView::ObserveLease],
        ),
        !(e is Now) ==> next(StateView::Init, e, now) == (
            StateView::Init,
            Seq::<CommandView>::empty(),
        ),
{
}

} // verus!
