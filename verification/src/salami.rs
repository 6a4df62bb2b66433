//! salami: a sans-io, allocation-light state machine for opinionated postgres
//! failover. The caller performs the commands that `step` hands back and feeds
//! their outcomes back in as events; the library only decides.
use crate::time::{duration_nanos, nanos_of, saturating_sub_nanos};
use core::time::Duration;
use vstd::prelude::*;

verus! {

/// A unique identifier for every node.
///
/// Uniqueness is not validated by salami, it is the responsibility of user to provide a
/// unique id for each node.
#[derive(Clone, Copy, PartialEq, Eq, Structural, Debug)]
pub struct NodeId(u64);

impl View for NodeId {
    type V = u64;

    closed spec fn view(&self) -> u64 {
        self.0
    }
}

impl NodeId {
    pub fn new(input: u64) -> (id: Self)
        ensures
            id@ == input,
    {
        NodeId(input)
    }

    /// The number this id was made from.
    pub fn value(&self) -> (v: u64)
        ensures
            v == self@,
    {
        self.0
    }
}

/// Two ids are equal exactly when they were made from the same number.
pub proof fn lemma_node_id_equality(a: NodeId, b: NodeId)
    ensures
        a == b <==> a@ == b@,
{
}

/// A counter type for the current term.
pub type Term = u64;

pub struct Config {
    /// The current node's id. Static and set by the user.
    pub id: NodeId,
    /// How often standby re-checks who the leader is.
    pub timeout: Duration,
    /// How long a lease/promotion lasts once acquired.
    pub lease_ttl: Duration,
    /// How early before expiry we start trying to renew. A renewal will happen at approximately `lease_ttl - renew_margin`
    pub renew_margin: Duration,
}

/// The core states at which we may reside. A user may inspect the state at any time in order to
/// take some further action.
pub enum State {
    /// The initial state, currently no known leader.
    Init,
    /// Attempting to observe the current leader.
    ObservingFromInit,
    /// In standby, but observing the leader in case an election has occurred.
    ObservingFromStandby { leader: NodeId },
    /// In the process of acquiring a lease
    AcquiringLease,
    /// In the process of promoting our current leader.
    Promoting { term: Term, ttl: Duration },
    /// The instance is currently the leader.
    Leader { term: Term },
    /// The lease is being renewed.
    Renewing { term: Term },
    /// The database instance is being started in standby mode.
    StartingStandby { leader: NodeId },
    /// The instance is in standby mode.
    Standby { leader: NodeId },
    /// The database instance is being demoted.
    Demoting,
    /// The lease is being released.
    ReleasingLease,
    /// We are stuck, we will let something external (a watchdog perhaps) kill our process.
    Stuck,
}

/// The events that should be handled by the user. All events should be handled for a functional
/// state machine.
pub enum Event {
    /// Timeout triggered, re-evaluate state.
    Timeout,
    /// A leader was observed
    ObservedLeader(NodeId),
    /// A leader was not observed, time to elect.
    ObservedNoLeader,
    /// Failed to observe the leader, try and elect again: at start-up this tries to
    /// acquire the lease; from standby it starts over from the initial state.
    ObserveFailed,
    /// Lease was acquired successfully.
    AcquireSucceeded { term: Term, ttl: Duration },
    /// Lease was not acquired, stop current instance.
    AcquireFailed,
    /// Database promotion succeeded.
    PromoteSucceeded { term: Term },
    /// Failed to promote the database instance.
    PromoteFailed { term: Term },
    /// Lease was renewed successfully.
    RenewSucceeded { term: Term, ttl: Duration },
    /// Lease did not renew.
    RenewFailed { term: Term },
    /// The database was started successfully in standby mode.
    StandbyStarted,
    /// The database failed to start in standby mode.
    StandbyStartFailed,
    /// Database stopped
    Stopped,
    /// Database failed to stop.
    StopFailed,
    /// Lease successfully released.
    Released,
    /// Lease was not released.
    ReleaseFailed,
}

#[derive(Clone, Copy)]
pub enum Command {
    ObserveLease,
    TryAcquireLease { ttl: Duration },
    Promote { term: Term },
    RenewLease { term: Term, ttl: Duration },
    StartStandby,
    StopPg,
    ReleaseLease,
    WakeAfter(Duration),
}

/// A hardcoded structure of items. It is limited to two as there is at most 2 actions that can be
/// followed at any one time. That being the immediate command evaluation, and a corresponding
/// timeout for that action.
#[derive(Clone, Copy)]
pub struct Commands {
    items: [Option<Command>; 2],
}

// ---------------------------------------------------------------------------
// Mathematical model: durations are taken by their length in nanoseconds and
// node ids by their number.
// ---------------------------------------------------------------------------

pub struct ConfigView {
    pub id: u64,
    pub timeout: nat,
    pub lease_ttl: nat,
    pub renew_margin: nat,
}

pub enum StateView {
    Init,
    ObservingFromInit,
    ObservingFromStandby { leader: u64 },
    AcquiringLease,
    Promoting { term: Term, ttl: nat },
    Leader { term: Term },
    Renewing { term: Term },
    StartingStandby { leader: u64 },
    Standby { leader: u64 },
    Demoting,
    ReleasingLease,
    Stuck,
}

pub enum EventView {
    Timeout,
    ObservedLeader(u64),
    ObservedNoLeader,
    ObserveFailed,
    AcquireSucceeded { term: Term, ttl: nat },
    AcquireFailed,
    PromoteSucceeded { term: Term },
    PromoteFailed { term: Term },
    RenewSucceeded { term: Term, ttl: nat },
    RenewFailed { term: Term },
    StandbyStarted,
    StandbyStartFailed,
    Stopped,
    StopFailed,
    Released,
    ReleaseFailed,
}

pub enum CommandView {
    ObserveLease,
    TryAcquireLease { ttl: nat },
    Promote { term: Term },
    RenewLease { term: Term, ttl: nat },
    StartStandby,
    StopPg,
    ReleaseLease,
    WakeAfter(nat),
}

impl View for Config {
    type V = ConfigView;

    open spec fn view(&self) -> ConfigView {
        ConfigView {
            id: self.id@,
            timeout: nanos_of(self.timeout),
            lease_ttl: nanos_of(self.lease_ttl),
            renew_margin: nanos_of(self.renew_margin),
        }
    }
}

impl View for State {
    type V = StateView;

    open spec fn view(&self) -> StateView {
        match *self {
            State::Init => StateView::Init,
            State::ObservingFromInit => StateView::ObservingFromInit,
            State::ObservingFromStandby { leader } => StateView::ObservingFromStandby {
                leader: leader@,
            },
            State::AcquiringLease => StateView::AcquiringLease,
            State::Promoting { term, ttl } => StateView::Promoting { term, ttl: nanos_of(ttl) },
            State::Leader { term } => StateView::Leader { term },
            State::Renewing { term } => StateView::Renewing { term },
            State::StartingStandby { leader } => StateView::StartingStandby { leader: leader@ },
            State::Standby { leader } => StateView::Standby { leader: leader@ },
            State::Demoting => StateView::Demoting,
            State::ReleasingLease => StateView::ReleasingLease,
            State::Stuck => StateView::Stuck,
        }
    }
}

impl View for Event {
    type V = EventView;

    open spec fn view(&self) -> EventView {
        match *self {
            Event::Timeout => EventView::Timeout,
            Event::ObservedLeader(id) => EventView::ObservedLeader(id@),
            Event::ObservedNoLeader => EventView::ObservedNoLeader,
            Event::ObserveFailed => EventView::ObserveFailed,
            Event::AcquireSucceeded { term, ttl } => EventView::AcquireSucceeded {
                term,
                ttl: nanos_of(ttl),
            },
            Event::AcquireFailed => EventView::AcquireFailed,
            Event::PromoteSucceeded { term } => EventView::PromoteSucceeded { term },
            Event::PromoteFailed { term } => EventView::PromoteFailed { term },
            Event::RenewSucceeded { term, ttl } => EventView::RenewSucceeded {
                term,
                ttl: nanos_of(ttl),
            },
            Event::RenewFailed { term } => EventView::RenewFailed { term },
            Event::StandbyStarted => EventView::StandbyStarted,
            Event::StandbyStartFailed => EventView::StandbyStartFailed,
            Event::Stopped => EventView::Stopped,
            Event::StopFailed => EventView::StopFailed,
            Event::Released => EventView::Released,
            Event::ReleaseFailed => EventView::ReleaseFailed,
        }
    }
}

impl View for Command {
    type V = CommandView;

    open spec fn view(&self) -> CommandView {
        match *self {
            Command::ObserveLease => CommandView::ObserveLease,
            Command::TryAcquireLease { ttl } => CommandView::TryAcquireLease { ttl: nanos_of(ttl) },
            Command::Promote { term } => CommandView::Promote { term },
            Command::RenewLease { term, ttl } => CommandView::RenewLease {
                term,
                ttl: nanos_of(ttl),
            },
            Command::StartStandby => CommandView::StartStandby,
            Command::StopPg => CommandView::StopPg,
            Command::ReleaseLease => CommandView::ReleaseLease,
            Command::WakeAfter(d) => CommandView::WakeAfter(nanos_of(d)),
        }
    }
}

/// The commands held by a pair of slots, in slot order, skipping empty slots.
pub open spec fn present_commands(a: Option<Command>, b: Option<Command>) -> Seq<CommandView> {
    let first = match a {
        Some(c) => seq![c@],
        None => Seq::empty(),
    };
    match b {
        Some(c) => first.push(c@),
        None => first,
    }
}

impl View for Commands {
    type V = Seq<CommandView>;

    closed spec fn view(&self) -> Seq<CommandView> {
        present_commands(self.items@[0], self.items@[1])
    }
}

impl Commands {
    /// Execute no commands.
    fn none() -> (c: Self)
        ensures
            c@ == Seq::<CommandView>::empty(),
    {
        Commands { items: [None, None] }
    }

    /// Execute one command.
    fn one(a: Command) -> (c: Self)
        ensures
            c@ == seq![a@],
    {
        Commands { items: [Some(a), None] }
    }

    /// Execute 2 commands.
    fn two(a: Command, b: Command) -> (c: Self)
        ensures
            c@ == seq![a@, b@],
    {
        let c = Commands { items: [Some(a), Some(b)] };
        assert(c@ =~= seq![a@, b@]);
        c
    }

    /// The commands to perform, in order.
    pub fn into_vec(self) -> (v: Vec<Command>)
        ensures
            v@.map_values(|c: Command| c@) == self@,
    {
        let mut v: Vec<Command> = Vec::new();
        let a = self.items[0];
        let b = self.items[1];
        match a {
            Some(c) => v.push(c),
            None => {},
        }
        match b {
            Some(c) => v.push(c),
            None => {},
        }
        assert(v@.map_values(|c: Command| c@) =~= present_commands(a, b));
        v
    }

    /// The command at position `i` of those to perform, or `None` past the end.
    pub fn get(&self, i: usize) -> (c: Option<Command>)
        ensures
            i < self@.len() ==> (c matches Some(cmd) && cmd@ == self@[i as int]),
            i >= self@.len() ==> c is None,
    {
        let a = self.items[0];
        let b = self.items[1];
        let first_present = a.is_some();
        if i == 0 {
            if first_present {
                a
            } else {
                b
            }
        } else if i == 1 && first_present {
            b
        } else {
            None
        }
    }

    /// How many commands there are to perform.
    pub fn len(&self) -> (n: usize)
        ensures
            n == self@.len(),
    {
        let mut n: usize = 0;
        if self.items[0].is_some() {
            n = n + 1;
        }
        if self.items[1].is_some() {
            n = n + 1;
        }
        n
    }
}

// ---------------------------------------------------------------------------
// The transition table.
// ---------------------------------------------------------------------------

/// Wake again immediately.
pub open spec fn wake_now() -> Seq<CommandView> {
    seq![CommandView::WakeAfter(0)]
}

/// Stop the database.
pub open spec fn stop_pg() -> Seq<CommandView> {
    seq![CommandView::StopPg]
}

/// Try to take the lease, with a timer on the attempt.
pub open spec fn try_acquire(cfg: ConfigView) -> Seq<CommandView> {
    seq![
        CommandView::TryAcquireLease { ttl: cfg.lease_ttl },
        CommandView::WakeAfter(cfg.lease_ttl),
    ]
}

/// Wake when the lease of length `ttl` is due for renewal.
pub open spec fn wake_for_renewal(ttl: nat, cfg: ConfigView) -> Seq<CommandView> {
    seq![CommandView::WakeAfter(saturating_sub_nanos(ttl, cfg.renew_margin))]
}

/// The state and commands that `step` gives for a state, an event and a configuration.
pub open spec fn next(s: StateView, e: EventView, cfg: ConfigView) -> (StateView, Seq<CommandView>) {
    let none = Seq::<CommandView>::empty();
    match s {
        StateView::Init => match e {
            EventView::Timeout => (StateView::ObservingFromInit, seq![CommandView::ObserveLease]),
            _ => (s, none),
        },
        StateView::ObservingFromInit => match e {
            EventView::ObservedLeader(id) => if id == cfg.id {
                (StateView::Demoting, stop_pg())
            } else {
                (StateView::StartingStandby { leader: id }, seq![CommandView::StartStandby])
            },
            // A failed observation at start-up is handled like no leader: elect.
            EventView::ObservedNoLeader | EventView::ObserveFailed => (
                StateView::AcquiringLease,
                try_acquire(cfg),
            ),
            _ => (s, none),
        },
        StateView::ObservingFromStandby { .. } => match e {
            EventView::ObservedLeader(id) => if id == cfg.id {
                (StateView::Demoting, stop_pg())
            } else {
                (StateView::Standby { leader: id }, seq![CommandView::WakeAfter(cfg.timeout)])
            },
            EventView::ObservedNoLeader => (StateView::AcquiringLease, try_acquire(cfg)),
            // A standby that fails to observe starts over from the initial state,
            // whose next timeout observes again.
            EventView::ObserveFailed => (StateView::Init, wake_now()),
            _ => (s, none),
        },
        StateView::AcquiringLease => match e {
            EventView::Timeout => (StateView::Init, wake_now()),
            EventView::AcquireSucceeded { term, ttl } => (
                StateView::Promoting { term, ttl },
                seq![CommandView::Promote { term }, CommandView::WakeAfter(ttl)],
            ),
            EventView::AcquireFailed => (StateView::Init, wake_now()),
            _ => (s, none),
        },
        StateView::Promoting { term, ttl } => match e {
            EventView::Timeout => (StateView::Demoting, stop_pg()),
            EventView::PromoteSucceeded { term: t } => if t == term {
                (StateView::Leader { term }, wake_for_renewal(ttl, cfg))
            } else {
                (s, none)
            },
            EventView::PromoteFailed { term: t } => if t == term {
                (StateView::Demoting, stop_pg())
            } else {
                (s, none)
            },
            _ => (s, none),
        },
        StateView::Leader { term } => match e {
            EventView::Timeout => (
                StateView::Renewing { term },
                seq![
                    CommandView::RenewLease { term, ttl: cfg.lease_ttl },
                    CommandView::WakeAfter(cfg.renew_margin),
                ],
            ),
            _ => (s, none),
        },
        StateView::Renewing { term } => match e {
            EventView::Timeout => (StateView::Demoting, stop_pg()),
            EventView::RenewSucceeded { term: t, ttl } => if t == term {
                (StateView::Leader { term }, wake_for_renewal(ttl, cfg))
            } else {
                (s, none)
            },
            EventView::RenewFailed { term: t } => if t == term {
                (StateView::Demoting, stop_pg())
            } else {
                (s, none)
            },
            _ => (s, none),
        },
        StateView::StartingStandby { leader } => match e {
            EventView::StandbyStarted => (
                StateView::Standby { leader },
                seq![CommandView::WakeAfter(cfg.timeout)],
            ),
            EventView::StandbyStartFailed => (StateView::Init, wake_now()),
            _ => (s, none),
        },
        StateView::Standby { leader } => match e {
            EventView::Timeout => if leader == cfg.id {
                (StateView::Demoting, stop_pg())
            } else {
                (StateView::ObservingFromStandby { leader }, seq![CommandView::ObserveLease])
            },
            _ => (s, none),
        },
        StateView::Demoting => match e {
            EventView::Stopped => (StateView::ReleasingLease, seq![CommandView::ReleaseLease]),
            EventView::StopFailed => (StateView::Stuck, none),
            _ => (s, none),
        },
        StateView::ReleasingLease => match e {
            EventView::Released => (StateView::Init, wake_now()),
            EventView::ReleaseFailed => (StateView::Stuck, none),
            _ => (s, none),
        },
        StateView::Stuck => (s, none),
    }
}

fn wake_immediately() -> (c: Commands)
    ensures
        c@ == wake_now(),
{
    Commands::one(Command::WakeAfter(Duration::from_nanos(0)))
}

fn stop_postgres() -> (c: Commands)
    ensures
        c@ == stop_pg(),
{
    Commands::one(Command::StopPg)
}

fn acquire_lease(cfg: &Config) -> (c: Commands)
    ensures
        c@ == try_acquire(cfg@),
{
    Commands::two(
        Command::TryAcquireLease { ttl: cfg.lease_ttl },
        Command::WakeAfter(cfg.lease_ttl),
    )
}

fn wake_at_renewal(ttl: Duration, cfg: &Config) -> (c: Commands)
    ensures
        c@ == wake_for_renewal(nanos_of(ttl), cfg@),
{
    Commands::one(Command::WakeAfter(ttl.saturating_sub(cfg.renew_margin)))
}

/// The main step function which contains the core logic for the library.
pub fn step(state: State, event: Event, cfg: &Config) -> (res: (State, Commands))
    ensures
        res.0@ == next(state@, event@, cfg@).0,
        res.1@ == next(state@, event@, cfg@).1,
{
    match state {
        // Init
        // If we get triggered immediately, we should attempt to observe the current lease
        State::Init => match event {
            Event::Timeout => (State::ObservingFromInit, Commands::one(Command::ObserveLease)),
            _ => (State::Init, Commands::none()),
        },
        // ObservingFromInit
        State::ObservingFromInit => match event {
            // If we are observing, and we are the leader, then we should stop since that is a failure
            // otherwise, we move into standby with the leader.
            Event::ObservedLeader(id) => if id == cfg.id {
                (State::Demoting, stop_postgres())
            } else {
                (State::StartingStandby { leader: id }, Commands::one(Command::StartStandby))
            },
            // If there is no leader, or our observation failed, we should try and acquire a lease.
            // If we do not have a connection to etcd or the etcd cluster as a whole, then the
            // attempt will most likely fail.
            Event::ObservedNoLeader | Event::ObserveFailed => (
                State::AcquiringLease,
                acquire_lease(cfg),
            ),
            _ => (State::ObservingFromInit, Commands::none()),
        },
        // ObservingFromStandby
        State::ObservingFromStandby { leader } => match event {
            // If we observe a leader, but we are a leader, then we should demote because that is not ideal.
            // If we observe a leader and someone else is the leader then move back to standby.
            Event::ObservedLeader(id) => if id == cfg.id {
                (State::Demoting, stop_postgres())
            } else {
                (State::Standby { leader: id }, Commands::one(Command::WakeAfter(cfg.timeout)))
            },
            // If there is no leader, then we should try and become the leader ourselves.
            Event::ObservedNoLeader => (State::AcquiringLease, acquire_lease(cfg)),
            // We should try and init again if we fail.
            Event::ObserveFailed => (State::Init, wake_immediately()),
            _ => (State::ObservingFromStandby { leader }, Commands::none()),
        },
        // AcquiringLease
        State::AcquiringLease => match event {
            // If we receive a timeout because we have taken too long, then fail back to the initial state.
            Event::Timeout => (State::Init, wake_immediately()),
            // If we have acquired the lease, then we should be promoting our local instance.
            Event::AcquireSucceeded { term, ttl } => (
                State::Promoting { term, ttl },
                Commands::two(Command::Promote { term }, Command::WakeAfter(ttl)),
            ),
            // If we fail to acquire the lease, then go back to initial state.
            Event::AcquireFailed => (State::Init, wake_immediately()),
            _ => (State::AcquiringLease, Commands::none()),
        },
        // Promoting
        State::Promoting { term, ttl } => match event {
            // If we have not succeeded within the length of the lease, demote.
            Event::Timeout => (State::Demoting, stop_postgres()),
            // If we succeeded in our promotion, then we should become a leader, and set a timeout to
            // trigger the renew cycle.
            Event::PromoteSucceeded { term: t } => if t == term {
                (State::Leader { term }, wake_at_renewal(ttl, cfg))
            } else {
                (State::Promoting { term, ttl }, Commands::none())
            },
            Event::PromoteFailed { term: t } => if t == term {
                (State::Demoting, stop_postgres())
            } else {
                (State::Promoting { term, ttl }, Commands::none())
            },
            _ => (State::Promoting { term, ttl }, Commands::none()),
        },
        // Leader
        State::Leader { term } => match event {
            Event::Timeout => (
                State::Renewing { term },
                Commands::two(
                    Command::RenewLease { term, ttl: cfg.lease_ttl },
                    Command::WakeAfter(cfg.renew_margin),
                ),
            ),
            _ => (State::Leader { term }, Commands::none()),
        },
        // Renewing
        State::Renewing { term } => match event {
            Event::Timeout => (State::Demoting, stop_postgres()),
            Event::RenewSucceeded { term: t, ttl } => if t == term {
                (State::Leader { term }, wake_at_renewal(ttl, cfg))
            } else {
                (State::Renewing { term }, Commands::none())
            },
            Event::RenewFailed { term: t } => if t == term {
                (State::Demoting, stop_postgres())
            } else {
                (State::Renewing { term }, Commands::none())
            },
            _ => (State::Renewing { term }, Commands::none()),
        },
        // StartingStandby
        State::StartingStandby { leader } => match event {
            Event::StandbyStarted => (
                State::Standby { leader },
                Commands::one(Command::WakeAfter(cfg.timeout)),
            ),
            Event::StandbyStartFailed => (State::Init, wake_immediately()),
            _ => (State::StartingStandby { leader }, Commands::none()),
        },
        // Standby
        State::Standby { leader } => match event {
            Event::Timeout => if leader == cfg.id {
                (State::Demoting, stop_postgres())
            } else {
                (State::ObservingFromStandby { leader }, Commands::one(Command::ObserveLease))
            },
            _ => (State::Standby { leader }, Commands::none()),
        },
        // Demoting
        State::Demoting => match event {
            Event::Stopped => (State::ReleasingLease, Commands::one(Command::ReleaseLease)),
            Event::StopFailed => (State::Stuck, Commands::none()),
            _ => (State::Demoting, Commands::none()),
        },
        // ReleasingLease
        State::ReleasingLease => match event {
            Event::Released => (State::Init, wake_immediately()),
            Event::ReleaseFailed => (State::Stuck, Commands::none()),
            _ => (State::ReleasingLease, Commands::none()),
        },
        // Stuck
        State::Stuck => (State::Stuck, Commands::none()),
    }
}


// ---------------------------------------------------------------------------
// Laws of the state machine.
// ---------------------------------------------------------------------------

/// Once stuck, a node stays stuck and asks for nothing, whatever happens.
pub proof fn lemma_stuck_is_absorbing(e: EventView, cfg: ConfigView)
    ensures
        next(StateView::Stuck, e, cfg) == (StateView::Stuck, Seq::<CommandView>::empty()),
{
}

/// A step asks for at most two commands; where it asks for two, the second is the
/// timer that bounds the first, and the first is not a timer.
pub proof fn lemma_command_then_timer(s: StateView, e: EventView, cfg: ConfigView)
    ensures
        next(s, e, cfg).1.len() <= 2,
        next(s, e, cfg).1.len() == 2 ==> (next(s, e, cfg).1[1] is WakeAfter && !(next(
            s,
            e,
            cfg,
        ).1[0] is WakeAfter)),
{
}

/// A step asks for nothing exactly when it leaves the state as it was or gets stuck.
pub proof fn lemma_silent_steps(s: StateView, e: EventView, cfg: ConfigView)
    ensures
        next(s, e, cfg).1.len() == 0 <==> (next(s, e, cfg).0 == s || next(s, e, cfg).0
            == StateView::Stuck),
{
}

/// A node becomes leader for a term only by confirming it: a promotion or a renewal
/// of that same term succeeded, or it already was leader for that term.
pub proof fn lemma_leadership_requires_confirmation(
    s: StateView,
    e: EventView,
    cfg: ConfigView,
    term: Term,
)
    requires
        next(s, e, cfg).0 == (StateView::Leader { term }),
    ensures
        ({
            ||| s == (StateView::Leader { term })
            ||| (s is Promoting && s->Promoting_term == term && e == (
            EventView::PromoteSucceeded { term }))
            ||| (s == (StateView::Renewing { term }) && e is RenewSucceeded
                && e->RenewSucceeded_term == term)
        }),
{
}

/// While leading or renewing, the term never changes.
pub proof fn lemma_term_is_kept_while_leading(
    s: StateView,
    e: EventView,
    cfg: ConfigView,
    term: Term,
    t: Term,
)
    requires
        s == (StateView::Leader { term }) || s == (StateView::Renewing { term }),
        next(s, e, cfg).0 == (StateView::Leader { term: t }) || next(s, e, cfg).0 == (
        StateView::Renewing { term: t }),
    ensures
        t == term,
{
}

/// Promotion starts only right after the lease was acquired, for the term and the
/// lease length that came with it, and it is bounded by a timer of that length.
pub proof fn lemma_promotion_follows_acquisition(
    s: StateView,
    e: EventView,
    cfg: ConfigView,
    term: Term,
    ttl: nat,
)
    requires
        next(s, e, cfg).0 == (StateView::Promoting { term, ttl }),
        s != (StateView::Promoting { term, ttl }),
    ensures
        s == StateView::AcquiringLease,
        e == (EventView::AcquireSucceeded { term, ttl }),
        next(s, e, cfg).1 == seq![CommandView::Promote { term }, CommandView::WakeAfter(ttl)],
{
}

/// Seeing itself named as leader while observing, a node demotes and stops postgres.
pub proof fn lemma_own_id_as_leader_demotes(s: StateView, cfg: ConfigView)
    requires
        s == StateView::ObservingFromInit || s is ObservingFromStandby,
    ensures
        next(s, EventView::ObservedLeader(cfg.id), cfg) == (StateView::Demoting, stop_pg()),
{
}

/// Every entry into demotion asks to stop postgres, and for nothing else.
pub proof fn lemma_demotion_stops_postgres(s: StateView, e: EventView, cfg: ConfigView)
    requires
        next(s, e, cfg).0 == StateView::Demoting,
        s != StateView::Demoting,
    ensures
        next(s, e, cfg).1 == stop_pg(),
{
}

/// Every return to the initial state asks to be woken again at once.
pub proof fn lemma_return_to_init_wakes_now(s: StateView, e: EventView, cfg: ConfigView)
    requires
        next(s, e, cfg).0 == StateView::Init,
        s != StateView::Init,
    ensures
        next(s, e, cfg).1 == wake_now(),
{
}

/// Only a timeout moves a node out of the initial state.
pub proof fn lemma_init_waits_for_timeout(e: EventView, cfg: ConfigView)
    requires
        next(StateView::Init, e, cfg).0 != StateView::Init,
    ensures
        e == EventView::Timeout,
{
}

/// Every attempt to take the lease is made for the configured lease length and
/// bounded by a timer of that length.
pub proof fn lemma_acquisition_is_bounded(s: StateView, e: EventView, cfg: ConfigView)
    requires
        next(s, e, cfg).0 == StateView::AcquiringLease,
        s != StateView::AcquiringLease,
    ensures
        next(s, e, cfg).1 == try_acquire(cfg),
{
}


/// Whether a state that follows a leader follows some other node than this one.
pub open spec fn follows_other_node(s: StateView, cfg: ConfigView) -> bool {
    match s {
        StateView::ObservingFromStandby { leader } => leader != cfg.id,
        StateView::StartingStandby { leader } => leader != cfg.id,
        StateView::Standby { leader } => leader != cfg.id,
        _ => true,
    }
}

/// A node never follows itself: starting from the initial state, every state it
/// steps through that names a leader to follow names another node.
pub proof fn lemma_never_follows_itself(s: StateView, e: EventView, cfg: ConfigView)
    requires
        follows_other_node(s, cfg),
    ensures
        follows_other_node(StateView::Init, cfg),
        follows_other_node(next(s, e, cfg).0, cfg),
{
}


/// An observing node that learns that no leader holds the lease tries to take it:
/// it asks to acquire the lease for the configured length, with a timer of that
/// length, whether it was starting up or following a leader.
pub proof fn lemma_no_leader_means_election(s: StateView, cfg: ConfigView)
    requires
        s == StateView::ObservingFromInit || s is ObservingFromStandby,
    ensures
        next(s, EventView::ObservedNoLeader, cfg) == (
            StateView::AcquiringLease,
            seq![
                CommandView::TryAcquireLease { ttl: cfg.lease_ttl },
                CommandView::WakeAfter(cfg.lease_ttl),
            ],
        ),
{
}

/// An observing node that sees another node hold the lease follows it: at start-up
/// it starts postgres as a standby of that node; from standby it keeps following
/// that node and looks again after the configured timeout.
pub proof fn lemma_other_leader_is_followed(id: u64, leader: u64, cfg: ConfigView)
    requires
        id != cfg.id,
    ensures
        next(StateView::ObservingFromInit, EventView::ObservedLeader(id), cfg) == (
            StateView::StartingStandby { leader: id },
            seq![CommandView::StartStandby],
        ),
        next(StateView::ObservingFromStandby { leader }, EventView::ObservedLeader(id), cfg) == (
            StateView::Standby { leader: id },
            seq![CommandView::WakeAfter(cfg.timeout)],
        ),
{
}

/// Once postgres has stopped, a demoting node releases the lease and asks for
/// nothing else; no step from demotion goes straight back to the initial state.
pub proof fn lemma_stopped_postgres_releases(e: EventView, cfg: ConfigView)
    ensures
        next(StateView::Demoting, EventView::Stopped, cfg) == (
            StateView::ReleasingLease,
            seq![CommandView::ReleaseLease],
        ),
        next(StateView::Demoting, e, cfg).0 != StateView::Init,
{
}

/// A leader whose timer fires renews the lease for the configured length, in the
/// same term, with a timer of the renewal margin.
pub proof fn lemma_leader_renews_on_timeout(term: Term, cfg: ConfigView)
    ensures
        next(StateView::Leader { term }, EventView::Timeout, cfg) == (
            StateView::Renewing { term },
            seq![
                CommandView::RenewLease { term, ttl: cfg.lease_ttl },
                CommandView::WakeAfter(cfg.renew_margin),
            ],
        ),
{
}

/// A confirmed promotion or renewal of a lease of length `ttl` makes the node
/// leader of that term, to wake again `renew_margin` before the lease ends (at
/// once where the margin is longer than the lease).
pub proof fn lemma_confirmation_leads_until_renewal(term: Term, ttl: nat, cfg: ConfigView)
    ensures
        next(
            StateView::Promoting { term, ttl },
            EventView::PromoteSucceeded { term },
            cfg,
        ) == (
            StateView::Leader { term },
            seq![
                CommandView::WakeAfter(
                    if ttl >= cfg.renew_margin {
                        (ttl - cfg.renew_margin) as nat
                    } else {
                        0
                    },
                ),
            ],
        ),
        next(StateView::Renewing { term }, EventView::RenewSucceeded { term, ttl }, cfg) == (
            StateView::Leader { term },
            seq![
                CommandView::WakeAfter(
                    if ttl >= cfg.renew_margin {
                        (ttl - cfg.renew_margin) as nat
                    } else {
                        0
                    },
                ),
            ],
        ),
{
}

/// A failed or timed-out promotion or renewal of the node's own term demotes it
/// and stops postgres.
pub proof fn lemma_failure_demotes(term: Term, ttl: nat, cfg: ConfigView)
    ensures
        next(StateView::Promoting { term, ttl }, EventView::PromoteFailed { term }, cfg) == (
            StateView::Demoting,
            seq![CommandView::StopPg],
        ),
        next(StateView::Promoting { term, ttl }, EventView::Timeout, cfg) == (
            StateView::Demoting,
            seq![CommandView::StopPg],
        ),
        next(StateView::Renewing { term }, EventView::RenewFailed { term }, cfg) == (
            StateView::Demoting,
            seq![CommandView::StopPg],
        ),
        next(StateView::Renewing { term }, EventView::Timeout, cfg) == (
            StateView::Demoting,
            seq![CommandView::StopPg],
        ),
{
}


/// Timers drive observation: a node at the initial state observes the lease when
/// its timer fires, and so does a standby of another node; a standby started for
/// a leader follows it and looks again after the configured timeout, and a failed
/// start goes back to the initial state, to be woken at once.
pub proof fn lemma_timers_drive_observation(leader: u64, cfg: ConfigView)
    ensures
        next(StateView::Init, EventView::Timeout, cfg) == (
            StateView::ObservingFromInit,
            seq![CommandView::ObserveLease],
        ),
        leader != cfg.id ==> next(StateView::Standby { leader }, EventView::Timeout, cfg) == (
            StateView::ObservingFromStandby { leader },
            seq![CommandView::ObserveLease],
        ),
        next(StateView::StartingStandby { leader }, EventView::StandbyStarted, cfg) == (
            StateView::Standby { leader },
            seq![CommandView::WakeAfter(cfg.timeout)],
        ),
        next(StateView::StartingStandby { leader }, EventView::StandbyStartFailed, cfg) == (
            StateView::Init,
            seq![CommandView::WakeAfter(0)],
        ),
{
}

/// An acquired lease is promoted in the granted term, bounded by a timer of the
/// granted length; a failed or timed-out acquisition goes back to the initial
/// state, to be woken at once.
pub proof fn lemma_acquisition_outcome(term: Term, ttl: nat, cfg: ConfigView)
    ensures
        next(StateView::AcquiringLease, EventView::AcquireSucceeded { term, ttl }, cfg) == (
            StateView::Promoting { term, ttl },
            seq![CommandView::Promote { term }, CommandView::WakeAfter(ttl)],
        ),
        next(StateView::AcquiringLease, EventView::AcquireFailed, cfg) == (
            StateView::Init,
            seq![CommandView::WakeAfter(0)],
        ),
        next(StateView::AcquiringLease, EventView::Timeout, cfg) == (
            StateView::Init,
            seq![CommandView::WakeAfter(0)],
        ),
{
}

/// A demotion that cannot stop postgres, or a release that fails, leaves the node
/// stuck; a released lease sends it back to the initial state, to be woken at once.
pub proof fn lemma_release_outcome(cfg: ConfigView)
    ensures
        next(StateView::Demoting, EventView::StopFailed, cfg) == (
            StateView::Stuck,
            Seq::<CommandView>::empty(),
        ),
        next(StateView::ReleasingLease, EventView::ReleaseFailed, cfg) == (
            StateView::Stuck,
            Seq::<CommandView>::empty(),
        ),
        next(StateView::ReleasingLease, EventView::Released, cfg) == (
            StateView::Init,
            seq![CommandView::WakeAfter(0)],
        ),
{
}

} // verus!
