//! The lifecycle states of one call.
//!
//! The signaling stack that drives a call through these states talks to the
//! network and lives outside this crate; the states themselves, and which of
//! them count as live, are fixed here.

use vstd::prelude::*;

verus! {

/// Where one call stands, from first ring to teardown.
#[derive(Debug, Clone, Copy, PartialEq, Eq, Structural)]
pub enum CallStatus {
    Ringing,
    Answered,
    InProgress,
    Hanging,
    Terminated,
}

impl CallStatus {
    /// Whether a call in this state still occupies a line; only a terminated
    /// call is free to be cleaned up.
    pub fn is_live(&self) -> (r: bool)
        ensures
            r == !(self is Terminated),
    {
        match self {
            CallStatus::Terminated => false,
            _ => true,
        }
    }
}

} // verus!
