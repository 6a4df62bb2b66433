//! What a lease store answers about its holder, grants and errors.
use crate::time::Instant;
use vstd::prelude::*;

verus! {

#[derive(Debug, Clone)]
pub struct NodeId(pub String);

pub type Term = u64;

#[derive(Debug, Clone)]
pub enum LeaseError {
    /// store unreachable
    Unreachable,
    /// conflict
    Conflict,
    /// not holder
    NotHolder,
    /// backend failure, with the backend's message
    Backend(String),
}

#[derive(Debug, Clone, Copy)]
pub struct LeaseGrant {
    pub term: Term,
    pub expires_at: Instant,
}

#[derive(Debug, Clone, Copy)]
pub enum AcquireOutcome {
    Acquired(LeaseGrant),
    /// someone else already holds lease
    Contended,
}

#[derive(Debug, Clone)]
pub enum RenewOutcome {
    Renewed { expires_at: Instant },
    /// no longer holder
    Lost,
}

#[derive(Debug, Clone)]
pub enum LeaseObservation {
    NoLeader,
    Leader(NodeId),
}

} // verus!
