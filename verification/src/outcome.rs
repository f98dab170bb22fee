//! Negative decisions: the values a caller inspects when a check does not
//! admit.

use vstd::prelude::*;
use crate::jitter::Jitter;

verus! {

/// A retryable denial: the same-weight request would be admitted at
/// `earliest_retry`, an instant on the clock the limiter read.
#[derive(Clone, Copy, Debug, PartialEq, Eq, Structural)]
pub struct NegativeOutcome {
    pub earliest_retry: u64,
}

/// The wait that a denial asks of a caller observing the denial from
/// `reference`: the time from `reference` to the earliest-retry instant
/// (zero when that instant has already passed), plus the jitter offset the
/// sample selects, saturating at the top of the time representation.
pub open spec fn spec_wait_time(earliest: u64, reference: u64, j: Jitter, sample: u64) -> int {
    let base = if earliest > reference {
        earliest - reference
    } else {
        0
    };
    let w = base + j.spec_offset(sample);
    if w > u64::MAX {
        u64::MAX as int
    } else {
        w
    }
}

impl NegativeOutcome {
    /// The earliest instant at which the denied request would be admitted.
    pub fn earliest_possible(&self) -> (t: u64)
        ensures
            t == self.earliest_retry,
    {
        self.earliest_retry
    }

    /// The duration to wait from `reference` before retrying, with the
    /// jitter offset that `sample` selects added.
    pub fn wait_time_from(&self, reference: u64, jitter: Jitter, sample: u64) -> (w: u64)
        requires
            jitter.wf(),
        ensures
            w == spec_wait_time(self.earliest_retry, reference, jitter, sample),
    {
        let base: u64 = if self.earliest_retry > reference {
            self.earliest_retry - reference
        } else {
            0
        };
        let offset: u64 = jitter.offset(sample);
        match base.checked_add(offset) {
            Some(w) => w,
            None => u64::MAX,
        }
    }
}

/// Why a check did not admit.
///
/// `Denied` is a normal negative decision: retry at the carried instant.
/// `InsufficientCapacity` is permanent for the request that received it —
/// its weight exceeds the quota's burst ceiling (or the time arithmetic
/// overflowed), so no state could ever admit it; callers must not retry.
#[derive(Clone, Copy, Debug, PartialEq, Eq, Structural)]
pub enum CheckError {
    Denied(NegativeOutcome),
    InsufficientCapacity,
}

} // verus!
