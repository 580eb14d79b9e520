//! The port allocator's retry rule.
//!
//! A port is leased by binding a listener to port 0 on the loopback address,
//! reading the port back and releasing the listener. The driver does the
//! binding; this module says what follows from each attempt.

use vstd::prelude::*;

verus! {

/// Milliseconds to wait after a failed attempt to bind.
pub const RETRY_DELAY_MILLIS: u64 = 100;

/// What follows from one attempt to bind.
#[derive(Debug, Clone, Copy, PartialEq, Eq, Structural)]
pub enum PortStep {
    /// The attempt yielded this port: the allocation is over.
    Leased(u16),
    /// The attempt failed: wait this many milliseconds and try again.
    RetryAfter(u64),
}

/// Decides on one attempt to bind, where `bound` is the port that the
/// operating system assigned, if it assigned one.
///
/// No number of failures ends the allocation: it is over only when a port was
/// assigned.
pub fn port_step(bound: Option<u16>) -> (step: PortStep)
    ensures
        step == match bound {
            Some(port) => PortStep::Leased(port),
            None => PortStep::RetryAfter(RETRY_DELAY_MILLIS),
        },
{
    match bound {
        Some(port) => PortStep::Leased(port),
        None => PortStep::RetryAfter(RETRY_DELAY_MILLIS),
    }
}

} // verus!
