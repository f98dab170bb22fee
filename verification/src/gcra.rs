//! The Generic Cell Rate Algorithm: a pure decision function mapping
//! (current cell state, now, quota, request weight) to (new state, decision).
//!
//! The cell state is a single *theoretical arrival time* (TAT): the instant
//! at which the bucket would be exactly empty were further cells uniformly
//! spaced.  A request of weight `n` is admitted when the candidate TAT
//! `max(tat, now) + n * emission_interval` stays within `tolerance` of
//! `now`; otherwise the decision reports the earliest instant at which the
//! same request would fit.  Arithmetic that would overflow the fixed
//! 64-bit time representation is reported as a permanent lack of capacity
//! rather than wrapping.

use vstd::prelude::*;
use crate::quota::Quota;

verus! {

/// The outcome of one GCRA transition.
///
/// `Admit` carries the cell state the transition commits; `Deny` carries the
/// earliest instant at which the same-weight request would be admitted;
/// `InsufficientCapacity` marks a request that can never be admitted (its
/// weight exceeds the burst ceiling, or the time arithmetic overflows).
#[derive(Clone, Copy, Debug, PartialEq, Eq, Structural)]
pub enum Decision {
    Admit { new_tat: u64 },
    Deny { earliest_retry: u64 },
    InsufficientCapacity,
}

/// The time, in nanoseconds, that a request of weight `n` consumes.
pub open spec fn spec_increment(q: Quota, n: u64) -> int {
    n * q.emission_interval_ns
}

/// The cell state a weight-`n` admission at `now` would commit.
pub open spec fn spec_candidate_tat(tat: u64, now: u64, q: Quota, n: u64) -> int {
    vstd::math::max(tat as int, now as int) + spec_increment(q, n)
}

/// The GCRA decision, as unbounded-integer mathematics.
pub open spec fn spec_decide(tat: u64, now: u64, q: Quota, n: u64) -> Decision {
    let candidate = spec_candidate_tat(tat, now, q, n);
    if n > q.max_burst {
        Decision::InsufficientCapacity
    } else if candidate > u64::MAX {
        Decision::InsufficientCapacity
    } else if candidate - now <= q.spec_tolerance() {
        Decision::Admit { new_tat: candidate as u64 }
    } else {
        Decision::Deny { earliest_retry: (candidate - q.spec_tolerance()) as u64 }
    }
}

/// One GCRA transition: decides a request of weight `n` against the cell
/// snapshot `tat` at time `now` under quota `q`.
pub fn decide(tat: u64, now: u64, q: &Quota, n: u64) -> (d: Decision)
    requires
        q.wf(),
    ensures
        d == spec_decide(tat, now, *q, n),
{
    if n > q.max_burst {
        return Decision::InsufficientCapacity;
    }
    proof {
        vstd::arithmetic::mul::lemma_mul_inequality(
            n as int,
            q.max_burst as int,
            q.emission_interval_ns as int,
        );
    }
    let increment: u64 = n * q.emission_interval_ns;
    let base: u64 = if tat > now {
        tat
    } else {
        now
    };
    match base.checked_add(increment) {
        None => Decision::InsufficientCapacity,
        Some(candidate) => {
            let tolerance: u64 = q.max_burst * q.emission_interval_ns;
            if candidate - now <= tolerance {
                Decision::Admit { new_tat: candidate }
            } else {
                Decision::Deny { earliest_retry: candidate - tolerance }
            }
        },
    }
}

/// Insufficient capacity is absolute: a request whose weight exceeds the
/// burst ceiling is rejected in every state, including a fresh, fully
/// available cell, at every instant.
pub proof fn lemma_insufficient_capacity_is_absolute(tat: u64, now: u64, q: Quota, n: u64)
    requires
        q.wf(),
        n > q.max_burst,
    ensures
        spec_decide(tat, now, q, n) == Decision::InsufficientCapacity,
{
}

/// A fresh (empty) cell carries a full budget: with the cell state at or
/// before `now`, any weight within the burst ceiling is admitted whenever
/// its arithmetic fits the time representation.
pub proof fn lemma_fresh_cell_admits(tat: u64, now: u64, q: Quota, n: u64)
    requires
        q.wf(),
        tat <= now,
        1 <= n <= q.max_burst,
        now + n * q.emission_interval_ns <= u64::MAX,
    ensures
        spec_decide(tat, now, q, n) is Admit,
{
    vstd::arithmetic::mul::lemma_mul_inequality(
        n as int,
        q.max_burst as int,
        q.emission_interval_ns as int,
    );
}

/// Wait-time correctness: when a request is denied, retrying the same-weight
/// request against the unchanged cell exactly at the reported earliest-retry
/// instant is admitted.
pub proof fn lemma_deny_retry_admits(tat: u64, now: u64, q: Quota, n: u64)
    requires
        q.wf(),
        spec_decide(tat, now, q, n) is Deny,
    ensures
        spec_decide(tat, spec_decide(tat, now, q, n)->earliest_retry, q, n) is Admit,
{
    let d = spec_decide(tat, now, q, n);
    let e = d->earliest_retry;
    let inc = spec_increment(q, n);
    let tau = q.spec_tolerance();
    let c = spec_candidate_tat(tat, now, q, n);
    vstd::arithmetic::mul::lemma_mul_inequality(
        n as int,
        q.max_burst as int,
        q.emission_interval_ns as int,
    );
    vstd::arithmetic::mul::lemma_mul_nonnegative(n as int, q.emission_interval_ns as int);
    assert(inc <= tau);
    assert(e == c - tau);
    let c2 = spec_candidate_tat(tat, e as u64, q, n);
    assert(c2 <= u64::MAX) by {
        assert(tat <= c - inc);
        assert(e <= c);
    }
    assert(c2 - e <= tau) by {
        if tat as int <= e as int {
            assert(c2 == e + inc);
        } else {
            assert(c2 == tat + inc);
            if tat as int >= now as int {
                assert(c == tat + inc);
                assert(c2 - e == tau);
            } else {
                assert(c == now + inc);
                assert(c2 - e == tau - (now - tat));
            }
        }
    }
}

/// Admission spacing: under a quota with burst ceiling 1, two consecutively
/// admitted weight-1 requests are at least one emission interval apart.
pub proof fn lemma_admission_spacing(tat: u64, t1: u64, t2: u64, q: Quota)
    requires
        q.wf(),
        q.max_burst == 1,
        spec_decide(tat, t1, q, 1) is Admit,
        spec_decide(spec_decide(tat, t1, q, 1)->new_tat, t2, q, 1) is Admit,
    ensures
        t2 >= t1 + q.emission_interval_ns,
{
    let i = q.emission_interval_ns as int;
    let nt = spec_decide(tat, t1, q, 1)->new_tat;
    assert(q.spec_tolerance() == i);
    assert(spec_increment(q, 1) == i);
    assert(nt >= t1 + i);
    assert(spec_candidate_tat(nt, t2, q, 1) - t2 <= i);
    assert(nt as int <= t2 as int);
}

/// The cell state and the number of admissions after a sequence of weight-1
/// checks performed at the given instants, starting from cell state `tat`.
pub open spec fn spec_run(tat: u64, q: Quota, times: Seq<u64>) -> (u64, nat)
    decreases times.len(),
{
    if times.len() == 0 {
        (tat, 0 as nat)
    } else {
        let d = spec_decide(tat, times[0], q, 1);
        if d is Admit {
            let rest = spec_run(d->new_tat, q, times.skip(1));
            (rest.0, (rest.1 + 1) as nat)
        } else {
            spec_run(tat, q, times.skip(1))
        }
    }
}

proof fn lemma_run_bounds(tat: u64, q: Quota, times: Seq<u64>, t_start: u64, t_end: u64)
    requires
        q.wf(),
        forall|i: int| 0 <= i < times.len() ==> t_start <= #[trigger] times[i] <= t_end,
    ensures
        ({
            let (tatf, k) = spec_run(tat, q, times);
            &&& tatf >= tat + k * q.emission_interval_ns
            &&& k == 0 ==> tatf == tat
            &&& k >= 1 ==> tatf >= t_start + k * q.emission_interval_ns
            &&& k >= 1 ==> tatf <= t_end + q.spec_tolerance()
        }),
    decreases times.len(),
{
    if times.len() > 0 {
        let t0 = times[0];
        let d = spec_decide(tat, t0, q, 1);
        let i = q.emission_interval_ns as int;
        assert(forall|j: int|
            0 <= j < times.skip(1).len() ==> t_start <= #[trigger] times.skip(1)[j] <= t_end);
        if d is Admit {
            let nt = d->new_tat;
            assert(spec_increment(q, 1) == i);
            assert(nt >= tat + i);
            assert(nt >= t0 + i);
            assert(nt <= t0 + q.spec_tolerance());
            lemma_run_bounds(nt, q, times.skip(1), t_start, t_end);
            let (tatf, kr) = spec_run(nt, q, times.skip(1));
            let k = (kr + 1) as nat;
            assert((kr + 1) * i == kr * i + i) by (nonlinear_arith);
            assert(tatf >= nt + kr * i);
            assert(tatf >= tat + k * i);
            assert(tatf >= t_start + k * i);
            if kr == 0 {
                assert(tatf == nt);
            }
        } else {
            lemma_run_bounds(tat, q, times.skip(1), t_start, t_end);
        }
    }
}

/// No double admission: however a sequence of weight-1 checks is
/// interleaved among callers, each admission advances the committed cell
/// state by at least one full emission interval.  The `k` admissions of a
/// run therefore consume `k` distinct slices of budget: no two of them can
/// have committed against the same snapshot, which is what a sequence of
/// atomic transitions guarantees and a lost update would break.
pub proof fn lemma_no_double_admission(tat: u64, q: Quota, times: Seq<u64>)
    requires
        q.wf(),
    ensures
        spec_run(tat, q, times).0 >= tat + spec_run(tat, q, times).1 * q.emission_interval_ns,
{
    lemma_run_bounds(tat, q, times, 0, u64::MAX);
}

/// Rate conformance: over any window of time, however the weight-1 checks
/// are placed within it and whatever state the cell began the window in,
/// the number of admissions `k` satisfies
/// `k * emission_interval <= (t_end - t_start) + tolerance` — that is,
/// at most `max_burst` plus one admission per elapsed emission interval.
pub proof fn lemma_rate_conformance(tat: u64, q: Quota, times: Seq<u64>, t_start: u64, t_end: u64)
    requires
        q.wf(),
        t_start <= t_end,
        forall|i: int| 0 <= i < times.len() ==> t_start <= #[trigger] times[i] <= t_end,
    ensures
        spec_run(tat, q, times).1 * q.emission_interval_ns
            <= (t_end - t_start) + q.spec_tolerance(),
{
    lemma_run_bounds(tat, q, times, t_start, t_end);
    let (tatf, k) = spec_run(tat, q, times);
    if k == 0 {
        assert(k * q.emission_interval_ns == 0) by (nonlinear_arith)
            requires
                k == 0,
        ;
    } else {
        assert(t_start + k * q.emission_interval_ns <= t_end + q.spec_tolerance());
    }
}

} // verus!
