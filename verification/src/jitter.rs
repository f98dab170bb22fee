//! Randomized perturbation of computed waits.
//!
//! When many denied callers share the same or close earliest-retry
//! instants, unmodified waits would retry in a synchronized spike.  A
//! jitter configuration spreads the retries across a window by adding a
//! uniformly chosen offset between `min_ns` and `max_ns` to each wait.
//!
//! The configuration is deterministic: it maps a caller-supplied random
//! sample to an offset in the configured window, so the mapping itself is
//! verified and the source of randomness stays outside the library.

use vstd::prelude::*;

verus! {

/// An interval of nanosecond offsets to perturb a wait duration with.
#[derive(Clone, Copy, Debug, PartialEq, Eq, Structural)]
pub struct Jitter {
    pub min_ns: u64,
    pub max_ns: u64,
}

impl Jitter {
    /// Well-formedness: an interval with a lower and an upper end.
    pub open spec fn wf(self) -> bool {
        self.min_ns <= self.max_ns
    }

    /// The offset the sample `sample` selects: `min_ns` plus the sample
    /// reduced into the width of the interval.
    pub open spec fn spec_offset(self, sample: u64) -> int {
        self.min_ns + (sample as int) % (self.max_ns - self.min_ns + 1)
    }

    /// The no-op configuration: every offset is zero.
    pub fn none() -> (j: Jitter)
        ensures
            j == (Jitter { min_ns: 0, max_ns: 0 }),
            j.wf(),
            forall|sample: u64| j.spec_offset(sample) == 0,
    {
        Jitter { min_ns: 0, max_ns: 0 }
    }

    /// Offsets between zero and `max_ns`.
    pub fn up_to(max_ns: u64) -> (j: Jitter)
        ensures
            j == (Jitter { min_ns: 0, max_ns }),
            j.wf(),
    {
        Jitter { min_ns: 0, max_ns }
    }

    /// Offsets between `min_ns` and `max_ns`.  Fails exactly when the
    /// interval is empty.
    pub fn new(min_ns: u64, max_ns: u64) -> (r: Option<Jitter>)
        ensures
            r is Some <==> min_ns <= max_ns,
            r is Some ==> r.unwrap() == (Jitter { min_ns, max_ns }) && r.unwrap().wf(),
    {
        if min_ns <= max_ns {
            Some(Jitter { min_ns, max_ns })
        } else {
            None
        }
    }

    /// Maps a uniformly random sample to an offset in the configured
    /// interval.
    pub fn offset(&self, sample: u64) -> (o: u64)
        requires
            self.wf(),
        ensures
            o == self.spec_offset(sample),
            self.min_ns <= o <= self.max_ns,
    {
        let span: u64 = self.max_ns - self.min_ns;
        if span == u64::MAX {
            proof {
                vstd::arithmetic::div_mod::lemma_small_mod(
                    sample as nat,
                    (u64::MAX + 1) as nat,
                );
            }
            sample
        } else {
            proof {
                vstd::arithmetic::div_mod::lemma_mod_division_less_than_divisor(
                    sample as int,
                    span + 1,
                );
            }
            self.min_ns + sample % (span + 1)
        }
    }
}

} // verus!
