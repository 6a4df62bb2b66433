//! Durations and monotonic instants.
//!
//! `core::time::Duration` is used as it is; Verus sees it through its number of
//! nanoseconds. Points in time are the library's own `Instant`: a count of
//! nanoseconds on a monotonic clock, counted from an origin that the caller
//! picks once per process.
use core::time::Duration;
use vstd::prelude::*;

verus! {

/// What `Duration::as_nanos` returns for a duration: its whole length in
/// nanoseconds.
pub uninterp spec fn duration_nanos(d: Duration) -> u128;

/// The length of a duration in nanoseconds, as a mathematical number.
pub open spec fn nanos_of(d: Duration) -> nat {
    duration_nanos(d) as nat
}

/// `Duration::as_nanos`: the total number of nanoseconds in the duration.
pub assume_specification[ core::time::Duration::as_nanos ](d: &Duration) -> (n: u128)
    ensures
        n == duration_nanos(*d),
;

/// `Duration::from_nanos`: a duration of exactly `nanos` nanoseconds.
pub assume_specification[ core::time::Duration::from_nanos ](nanos: u64) -> (d: Duration)
    ensures
        duration_nanos(d) == nanos,
;

/// `Duration::saturating_sub`: `a - b`, or zero where `b` is longer than `a`.
pub assume_specification[ core::time::Duration::saturating_sub ](a: Duration, b: Duration) -> (d: Duration)
    ensures
        duration_nanos(d) == (if duration_nanos(a) >= duration_nanos(b) {
            duration_nanos(a) - duration_nanos(b)
        } else {
            0
        }),
;

/// Saturating subtraction of lengths in nanoseconds.
pub open spec fn saturating_sub_nanos(a: nat, b: nat) -> nat {
    if a >= b {
        (a - b) as nat
    } else {
        0
    }
}

/// A point on a monotonic clock, in nanoseconds from an origin chosen by the
/// caller. Two instants compare meaningfully only when they share an origin.
#[derive(Clone, Copy, PartialEq, Eq, Structural, Debug)]
pub struct Instant {
    nanos: u64,
}

impl View for Instant {
    type V = nat;

    closed spec fn view(&self) -> nat {
        self.nanos as nat
    }
}

/// Every instant lies within the `u64` range of nanoseconds from the origin.
pub proof fn lemma_instant_bounded(i: Instant)
    ensures
        i@ <= u64::MAX,
{
}

impl Instant {
    /// The instant `nanos` nanoseconds after the origin.
    pub fn from_nanos(nanos: u64) -> (i: Instant)
        ensures
            i@ == nanos,
    {
        Instant { nanos }
    }

    /// Nanoseconds from the origin to this instant.
    pub fn as_nanos(&self) -> (n: u64)
        ensures
            n == self@,
    {
        self.nanos
    }

    /// Whether `self` is at or after `other`.
    pub fn is_at_or_after(&self, other: &Instant) -> (b: bool)
        ensures
            b == (self@ >= other@),
    {
        self.nanos >= other.nanos
    }

    /// `self + d`, or `None` where that lies past the last representable instant.
    pub fn checked_add(self, d: Duration) -> (r: Option<Instant>)
        ensures
            r matches Some(i) ==> i@ == self@ + nanos_of(d),
            r is None <==> self@ + nanos_of(d) > u64::MAX,
    {
        let dn = d.as_nanos();
        if dn > u64::MAX as u128 {
            return None;
        }
        let total: u128 = self.nanos as u128 + dn;
        if total > u64::MAX as u128 {
            None
        } else {
            Some(Instant { nanos: total as u64 })
        }
    }

    /// `self + d`; the sum must be representable.
    pub fn plus(self, d: Duration) -> (i: Instant)
        requires
            self@ + nanos_of(d) <= u64::MAX,
        ensures
            i@ == self@ + nanos_of(d),
    {
        let dn = d.as_nanos();
        Instant { nanos: (self.nanos as u128 + dn) as u64 }
    }

    /// `self - d`, or `None` where that lies before the origin.
    pub fn checked_sub(self, d: Duration) -> (r: Option<Instant>)
        ensures
            r matches Some(i) ==> i@ == self@ - nanos_of(d),
            r is None <==> self@ < nanos_of(d),
    {
        let dn = d.as_nanos();
        if dn > self.nanos as u128 {
            None
        } else {
            Some(Instant { nanos: (self.nanos as u128 - dn) as u64 })
        }
    }

    /// The time elapsed from `earlier` to `self`, or `None` where `earlier` is later.
    pub fn checked_duration_since(self, earlier: Instant) -> (r: Option<Duration>)
        ensures
            r matches Some(d) ==> nanos_of(d) == self@ - earlier@,
            r is None <==> self@ < earlier@,
    {
        if self.nanos < earlier.nanos {
            None
        } else {
            Some(Duration::from_nanos(self.nanos - earlier.nanos))
        }
    }

    /// The time elapsed from `earlier` to `self`, or zero where `earlier` is later.
    pub fn saturating_duration_since(self, earlier: Instant) -> (d: Duration)
        ensures
            nanos_of(d) == saturating_sub_nanos(self@, earlier@),
    {
        if self.nanos < earlier.nanos {
            Duration::from_nanos(0)
        } else {
            Duration::from_nanos(self.nanos - earlier.nanos)
        }
    }
}

} // verus!
