//! The direct (un-keyed) state store and the rate limiter façade over it:
//! one cell, one global budget.

use vstd::prelude::*;
use crate::clock::Clock;
use crate::gcra;
use crate::gcra::Decision;
use crate::outcome::CheckError;
use crate::outcome::NegativeOutcome;
use crate::quota::Quota;

verus! {

/// The check result a decision is reported as: `Admit` is `Ok`, the two
/// negative decisions carry their data in the error.
pub open spec fn spec_result_of(d: Decision) -> Result<(), CheckError> {
    match d {
        Decision::Admit { new_tat: _ } => Ok(()),
        Decision::Deny { earliest_retry } => Err(
            CheckError::Denied(NegativeOutcome { earliest_retry }),
        ),
        Decision::InsufficientCapacity => Err(CheckError::InsufficientCapacity),
    }
}

/// Turns a decision into the result callers see.
pub fn result_of(d: Decision) -> (r: Result<(), CheckError>)
    ensures
        r == spec_result_of(d),
{
    match d {
        Decision::Admit { new_tat: _ } => Ok(()),
        Decision::Deny { earliest_retry } => Err(
            CheckError::Denied(NegativeOutcome { earliest_retry }),
        ),
        Decision::InsufficientCapacity => Err(CheckError::InsufficientCapacity),
    }
}

/// A store of exactly one cell.
///
/// The cell starts at zero — at or before every instant the clock will ever
/// report, i.e. an empty, fully available bucket.  Each call to
/// [`DirectStateStore::measure_and_replace`] is one atomic read-decide-commit
/// transition on the cell: holding the store by `&mut` gives the transition
/// the exclusive access that the lock-free original obtains from a
/// compare-and-swap retry loop, so at most one admission is ever recorded
/// per transition and no transition acts on a stale snapshot.
#[derive(Clone, Copy, Debug, PartialEq, Eq, Structural)]
pub struct DirectStateStore {
    pub tat: u64,
}

impl DirectStateStore {
    /// A fresh store: an empty bucket.
    pub fn new() -> (s: DirectStateStore)
        ensures
            s.tat == 0,
    {
        DirectStateStore { tat: 0 }
    }

    /// Applies one GCRA transition to the cell: commits the new state on
    /// admission, leaves the cell untouched on any negative decision.
    pub fn measure_and_replace(&mut self, q: &Quota, now: u64, n: u64) -> (d: Decision)
        requires
            q.wf(),
        ensures
            d == gcra::spec_decide(old(self).tat, now, *q, n),
            d is Admit ==> final(self).tat == d->new_tat,
            !(d is Admit) ==> final(self).tat == old(self).tat,
    {
        let d = gcra::decide(self.tat, now, q, n);
        match d {
            Decision::Admit { new_tat } => {
                self.tat = new_tat;
            },
            _ => {},
        }
        d
    }
}

/// The rate limiter façade over one global cell: a quota, a direct store,
/// and an injected clock.
pub struct RateLimiter<C: Clock> {
    pub quota: Quota,
    pub store: DirectStateStore,
    pub clock: C,
}

impl<C: Clock> RateLimiter<C> {
    /// Well-formedness: the quota the limiter was built from is well formed.
    pub open spec fn wf(&self) -> bool {
        self.quota.wf()
    }

    /// The decision a weight-`n` check issued in the limiter's present
    /// state would reach.
    pub open spec fn spec_decision(&self, n: u64) -> Decision {
        gcra::spec_decide(self.store.tat, self.clock.spec_now(), self.quota, n)
    }

    /// A direct limiter over `quota`, reading time from `clock`.
    pub fn direct_with_clock(quota: Quota, clock: C) -> (l: RateLimiter<C>)
        requires
            quota.wf(),
        ensures
            l.quota == quota,
            l.clock == clock,
            l.store.tat == 0,
            l.wf(),
    {
        RateLimiter { quota, store: DirectStateStore::new(), clock }
    }

    /// The quota this limiter enforces.
    pub fn quota(&self) -> (q: Quota)
        ensures
            q == self.quota,
    {
        self.quota
    }

    /// The instant the limiter would use for a check issued now.  Callers
    /// that go on to compute a wait from a denial read this first, so the
    /// wait is referenced to the same time base as the check.
    pub fn reference_reading(&self) -> (t: u64)
        ensures
            t == self.clock.spec_now(),
    {
        self.clock.now()
    }

    /// Checks a single cell (weight 1) against the budget.
    pub fn check(&mut self) -> (r: Result<(), CheckError>)
        requires
            old(self).wf(),
        ensures
            final(self).wf(),
            final(self).quota == old(self).quota,
            final(self).clock == old(self).clock,
            ({
                let d = old(self).spec_decision(1);
                &&& r == spec_result_of(d)
                &&& (d is Admit ==> final(self).store.tat == d->new_tat)
                &&& (!(d is Admit) ==> final(self).store.tat == old(self).store.tat)
            }),
    {
        self.check_n(1)
    }

    /// Checks `n` cells at once against the budget.  A weight above the
    /// quota's burst ceiling is reported as `InsufficientCapacity`: a
    /// permanent rejection of this request size, whatever the state.
    pub fn check_n(&mut self, n: u64) -> (r: Result<(), CheckError>)
        requires
            old(self).wf(),
        ensures
            final(self).wf(),
            final(self).quota == old(self).quota,
            final(self).clock == old(self).clock,
            ({
                let d = old(self).spec_decision(n);
                &&& r == spec_result_of(d)
                &&& (d is Admit ==> final(self).store.tat == d->new_tat)
                &&& (!(d is Admit) ==> final(self).store.tat == old(self).store.tat)
            }),
    {
        let now = self.clock.now();
        let d = self.store.measure_and_replace(&self.quota, now, n);
        result_of(d)
    }
}

} // verus!
