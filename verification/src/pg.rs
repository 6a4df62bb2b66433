//! Errors of postgres control.
use vstd::prelude::*;

verus! {

#[derive(Debug)]
pub enum PgError {
    /// postgres command failed, with the command's message
    Command(String),
}

} // verus!
