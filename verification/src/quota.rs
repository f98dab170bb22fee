//! Immutable rate configuration: a maximum burst size and the interval at
//! which one cell of capacity is replenished.

use vstd::prelude::*;

verus! {

/// One second, in nanoseconds.
pub const NANOS_PER_SECOND: u64 = 1_000_000_000;

/// An immutable rate configuration.
///
/// `max_burst` is the number of cells that may be admitted instantaneously
/// with no prior idle accumulation; `emission_interval_ns` is the time, in
/// nanoseconds, credited back per single cell (equivalently, the interval
/// at which one cell is replenished).
///
/// A quota is well formed when both values are positive and the derived
/// tolerance `max_burst * emission_interval_ns` fits in a `u64`; the
/// constructors only ever produce well-formed quotas.
#[derive(Clone, Copy, Debug, PartialEq, Eq, Structural)]
pub struct Quota {
    pub max_burst: u64,
    pub emission_interval_ns: u64,
}

impl Quota {
    /// Well-formedness: positive burst, positive interval, and a tolerance
    /// that fits in the fixed-precision time representation.
    pub open spec fn wf(self) -> bool {
        &&& 1 <= self.max_burst
        &&& 1 <= self.emission_interval_ns
        &&& self.max_burst * self.emission_interval_ns <= u64::MAX
    }

    /// The maximum span of time the bucket may "owe" before denying:
    /// `emission_interval × max_burst`.
    pub open spec fn spec_tolerance(self) -> int {
        self.max_burst * self.emission_interval_ns
    }

    /// Builds a quota from a burst size and a replenishment interval in
    /// nanoseconds.  Fails exactly when either value is zero or the derived
    /// tolerance would overflow the time representation.
    pub fn new(max_burst: u64, replenish_interval_ns: u64) -> (r: Option<Quota>)
        ensures
            r is Some <==> (max_burst >= 1 && replenish_interval_ns >= 1
                && max_burst * replenish_interval_ns <= u64::MAX),
            r is Some ==> r.unwrap() == (Quota {
                max_burst,
                emission_interval_ns: replenish_interval_ns,
            }) && r.unwrap().wf(),
    {
        if max_burst == 0 || replenish_interval_ns == 0 {
            None
        } else {
            match max_burst.checked_mul(replenish_interval_ns) {
                Some(_) => Some(Quota { max_burst, emission_interval_ns: replenish_interval_ns }),
                None => None,
            }
        }
    }

    /// Convenience: "`cells_per_second` cells per second", i.e. a burst of
    /// `cells_per_second` replenished one cell every
    /// `1_000_000_000 / cells_per_second` nanoseconds (integer division).
    /// Fails exactly when the count is zero or exceeds one cell per
    /// nanosecond.
    pub fn per_second(cells_per_second: u64) -> (r: Option<Quota>)
        ensures
            r is Some <==> (1 <= cells_per_second && cells_per_second <= NANOS_PER_SECOND),
            r is Some ==> r.unwrap() == (Quota {
                max_burst: cells_per_second,
                emission_interval_ns: (NANOS_PER_SECOND as int / cells_per_second as int) as u64,
            }) && r.unwrap().wf(),
    {
        if cells_per_second == 0 || cells_per_second > NANOS_PER_SECOND {
            None
        } else {
            let interval: u64 = NANOS_PER_SECOND / cells_per_second;
            proof {
                let n = NANOS_PER_SECOND as int;
                let c = cells_per_second as int;
                vstd::arithmetic::div_mod::lemma_fundamental_div_mod(n, c);
                vstd::arithmetic::div_mod::lemma_mod_division_less_than_divisor(n, c);
                vstd::arithmetic::div_mod::lemma_div_non_zero(n, c);
                assert(c * (n / c) == n - n % c);
                assert(c * (n / c) <= n);
            }
            Some(Quota { max_burst: cells_per_second, emission_interval_ns: interval })
        }
    }

    /// The configured burst ceiling.
    pub fn max_burst(&self) -> (b: u64)
        ensures
            b == self.max_burst,
    {
        self.max_burst
    }

    /// The time credited per single cell, in nanoseconds.
    pub fn emission_interval(&self) -> (i: u64)
        ensures
            i == self.emission_interval_ns,
    {
        self.emission_interval_ns
    }

    /// The derived tolerance, in nanoseconds.
    pub fn tolerance(&self) -> (t: u64)
        requires
            self.wf(),
        ensures
            t == self.spec_tolerance(),
    {
        self.max_burst * self.emission_interval_ns
    }
}

} // verus!
