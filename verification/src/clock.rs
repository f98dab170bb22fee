//! The time capability: limiters read the current instant from an
//! injectable clock, so the engine is deterministically testable.
//!
//! Instants are nanosecond counts from an arbitrary per-clock origin.
//! A clock is expected to be monotonic: successive readings never
//! decrease.  The engine itself is robust even to a reading that moves
//! backwards (the decision takes `max(tat, now)`), so this expectation is
//! one of quality, not of soundness.  A realtime implementation backed by
//! the platform's monotonic source belongs at the application boundary;
//! this crate supplies the controllable test clock.

use vstd::prelude::*;

verus! {

/// A supplier of monotonic instants, as nanoseconds from the clock's origin.
///
/// Implementations must return exactly the value `spec_now` describes.
pub trait Clock: Sized {
    /// The instant a reading taken now would report.
    spec fn spec_now(&self) -> u64;

    /// Reads the current instant.
    fn now(&self) -> (t: u64)
        ensures
            t == self.spec_now(),
    ;
}

/// A controllable clock for deterministic tests: its reading only advances
/// when explicitly told to.
#[derive(Clone, Copy, Debug, PartialEq, Eq, Structural)]
pub struct FakeClock {
    pub now_ns: u64,
}

impl FakeClock {
    /// A clock whose reading starts at `start_ns`.
    pub fn starting_at(start_ns: u64) -> (c: FakeClock)
        ensures
            c.now_ns == start_ns,
    {
        FakeClock { now_ns: start_ns }
    }

    /// Moves the reading forward by `delta_ns` nanoseconds.
    pub fn advance(&mut self, delta_ns: u64)
        requires
            old(self).now_ns + delta_ns <= u64::MAX,
        ensures
            final(self).now_ns == old(self).now_ns + delta_ns,
    {
        self.now_ns = self.now_ns + delta_ns;
    }
}

impl Clock for FakeClock {
    open spec fn spec_now(&self) -> u64 {
        self.now_ns
    }

    fn now(&self) -> u64 {
        self.now_ns
    }
}

} // verus!
