//! What a lease store answers: grants with their term and expiry, and errors.
use crate::time::Instant;
use vstd::prelude::*;

verus! {

pub type Term = u64;

#[derive(Debug)]
pub enum LeaseError {
    /// store unreachable
    Unreachable,
    /// conflict
    Conflict,
    /// not holder
    NotHolder,
    /// backend failure, with the backend's message
    Backend(String),
}

#[derive(Debug, Clone, Copy)]
pub struct LeaseGrant {
    pub term: Term,
    pub expires_at: Instant,
}

#[derive(Debug, Clone, Copy)]
pub enum AcquireOutcome {
    Acquired(LeaseGrant),
    /// someone else already holds lease
    Contended,
}

#[derive(Debug, Clone, Copy)]
pub enum RenewOutcome {
    Renewed { expires_at: Instant },
    /// no longer holder / CAS lost
    Lost,
}

#[derive(Debug, Clone, Copy)]
pub enum LeaseObservation {
    NoLeader,
    Leader(LeaseGrant),
}

} // verus!
