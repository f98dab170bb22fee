//! The keyed state store and the rate limiter façade over it: an unbounded
//! family of independent per-key budgets, with bounded-memory cleanup of
//! idle keys.
//!
//! Keys are 64-bit integers; an application maps its own identities (for
//! example, client addresses) onto them at the boundary.  A key's cell is
//! created on first use, initialized empty at the instant of that first
//! check, and may be reclaimed once it has been idle for longer than the
//! quota's tolerance — at which point the cell is provably empty, so the
//! reclaimed caller loses no unused credit and a reappearing key starts,
//! correctly, with a fresh full budget.
//!
//! Cleanup is opportunistic: [`KeyedRateLimiter::retain_recent`] sweeps the
//! table on demand, and callers bound memory by invoking it periodically.

use vstd::prelude::*;
use crate::clock::Clock;
use crate::gcra;
use crate::gcra::Decision;
use crate::outcome::CheckError;
use crate::direct::result_of;
use crate::direct::spec_result_of;
use crate::quota::Quota;
use std::collections::HashMap;

verus! {

broadcast use vstd::std_specs::hash::group_hash_axioms, vstd::seq_lib::lemma_seq_contains_after_push;

/// Whether a cell with theoretical arrival time `tat` is stale at `now`
/// under tolerance `tol`: its state has fallen more than the tolerance
/// behind the clock, so the cell is empty and has been idle longer than
/// any admission could still reference.
pub open spec fn spec_stale(tat: u64, tol: int, now: u64) -> bool {
    tat + tol < now
}

/// A store of one cell per key.
///
/// `map` carries each live key's theoretical arrival time; `keys` records
/// the live keys so that a cleanup sweep can visit them.  As with the
/// direct store, holding the store by `&mut` makes each per-key transition
/// atomic, and cleanup can never race with a transition.
pub struct KeyedStateStore {
    pub map: HashMap<u64, u64>,
    pub keys: Vec<u64>,
}

impl KeyedStateStore {
    /// The per-key cell states.
    pub open spec fn cells(&self) -> Map<u64, u64> {
        self.map@
    }

    /// Well-formedness: the key list is duplicate-free and lists exactly
    /// the table's keys.
    pub open spec fn wf(&self) -> bool {
        &&& self.keys@.no_duplicates()
        &&& forall|k: u64|
            #![trigger self.map@.contains_key(k)]
            #![trigger self.keys@.contains(k)]
            self.map@.contains_key(k) <==> self.keys@.contains(k)
    }

    /// The cell snapshot a check of `key` at `now` decides against: the
    /// key's recorded state, or a fresh, empty cell (state `now`) when the
    /// key is absent.
    pub open spec fn spec_tat_of(&self, key: u64, now: u64) -> u64 {
        if self.cells().contains_key(key) {
            self.cells()[key]
        } else {
            now
        }
    }

    /// An empty store.
    pub fn new() -> (s: KeyedStateStore)
        ensures
            s.wf(),
            s.cells() == Map::<u64, u64>::empty(),
    {
        KeyedStateStore { map: HashMap::new(), keys: Vec::new() }
    }

    /// The number of live keys.
    pub fn len(&self) -> (n: usize)
        ensures
            n == self.cells().len(),
    {
        self.map.len()
    }

    /// Applies one GCRA transition to `key`'s cell, creating the cell
    /// fresh (empty at `now`) if the key is absent.  Commits the new state
    /// on admission; any negative decision leaves the store unchanged, so
    /// no other key's budget is ever touched.
    pub fn measure_and_replace_key(&mut self, key: u64, q: &Quota, now: u64, n: u64) -> (d:
        Decision)
        requires
            old(self).wf(),
            q.wf(),
        ensures
            final(self).wf(),
            d == gcra::spec_decide(old(self).spec_tat_of(key, now), now, *q, n),
            d is Admit ==> final(self).cells() == old(self).cells().insert(key, d->new_tat),
            !(d is Admit) ==> final(self).cells() == old(self).cells(),
    {
        let tat: u64 = match self.map.get(&key) {
            Some(t) => *t,
            None => now,
        };
        let d = gcra::decide(tat, now, q, n);
        match d {
            Decision::Admit { new_tat } => {
                let previous = self.map.insert(key, new_tat);
                if previous.is_none() {
                    proof {
                        assert(!old(self).keys@.contains(key));
                        assert(self.keys@.push(key).no_duplicates()) by {
                            let s = self.keys@.push(key);
                            assert forall|i: int, j: int|
                                0 <= i < s.len() && 0 <= j < s.len() && i != j implies s[i]
                                != s[j] by {
                                if i == self.keys@.len() {
                                    assert(s[j] == self.keys@[j]);
                                } else if j == self.keys@.len() {
                                    assert(s[i] == self.keys@[i]);
                                }
                            }
                        }
                    }
                    self.keys.push(key);
                }
            },
            _ => {},
        }
        d
    }

    /// Removes exactly the stale cells: those whose state has fallen more
    /// than `tol` behind `now`.  Every surviving cell keeps its state.
    pub fn retain_recent(&mut self, tol: u64, now: u64)
        requires
            old(self).wf(),
        ensures
            final(self).wf(),
            forall|k: u64|
                #[trigger] final(self).cells().contains_key(k) <==> (old(self).cells().contains_key(k) && !spec_stale(old(self).cells()[k], tol as int, now)),
            forall|k: u64|
                #[trigger] final(self).cells().contains_key(k) ==> final(self).cells()[k] == old(self).cells()[k],
    {
        let ghost orig = *self;
        let mut kept: Vec<u64> = Vec::new();
        let mut idx: usize = 0;
        while idx < self.keys.len()
            invariant
                idx <= self.keys@.len(),
                self.keys == orig.keys,
                orig.wf(),
                forall|k: u64|
                    #[trigger] self.map@.contains_key(k) ==> orig.map@.contains_key(k)
                        && self.map@[k] == orig.map@[k],
                forall|j: int|
                    0 <= j < idx ==> (#[trigger] self.map@.contains_key(orig.keys@[j]) <==> !spec_stale(
                        orig.map@[orig.keys@[j]],
                        tol as int,
                        now,
                    )),
                forall|j: int|
                    idx <= j < self.keys@.len() ==> self.map@.contains_key(
                        #[trigger] self.keys@[j],
                    ),
                forall|j: int|
                    idx <= j < self.keys@.len() ==> self.map@[#[trigger] self.keys@[j]]
                        == orig.map@[self.keys@[j]],
                kept@.no_duplicates(),
                forall|k: u64| #[trigger] kept@.contains(k) ==> self.map@.contains_key(k),
                forall|j: int|
                    0 <= j < idx ==> (#[trigger] kept@.contains(orig.keys@[j])
                        <==> self.map@.contains_key(orig.keys@[j])),
                forall|k: u64|
                    #[trigger] kept@.contains(k) ==> exists|j: int|
                        0 <= j < idx && orig.keys@[j] == k,
            decreases self.keys@.len() - idx,
        {
            let k = self.keys[idx];
            let tat: u64 = *self.map.get(&k).unwrap();
            if now > tat && now - tat > tol {
                self.map.remove(&k);
                proof {
                    assert forall|j: int|
                        idx + 1 <= j < self.keys@.len() implies self.map@.contains_key(
                        self.keys@[j],
                    ) && self.map@[self.keys@[j]] == orig.map@[self.keys@[j]] by {
                        assert(orig.keys@[j] != orig.keys@[idx as int]);
                    }
                }
            } else {
                proof {
                    assert(!kept@.contains(k)) by {
                        if kept@.contains(k) {
                            let j = choose|j: int| 0 <= j < idx && orig.keys@[j] == k;
                            assert(orig.keys@[j] == orig.keys@[idx as int]);
                        }
                    }
                    assert(kept@.push(k).no_duplicates()) by {
                        let s = kept@.push(k);
                        assert forall|i: int, j: int|
                            0 <= i < s.len() && 0 <= j < s.len() && i != j implies s[i] != s[j] by {
                            if i == kept@.len() {
                                assert(s[j] == kept@[j]);
                            } else if j == kept@.len() {
                                assert(s[i] == kept@[i]);
                            }
                        }
                    }
                }
                kept.push(k);
            }
            idx = idx + 1;
        }
        proof {
            assert forall|k: u64| self.map@.contains_key(k) implies kept@.contains(k) by {
                assert(orig.keys@.contains(k));
                let j = choose|j: int| 0 <= j < orig.keys@.len() && orig.keys@[j] == k;
                assert(kept@.contains(orig.keys@[j]) <==> self.map@.contains_key(orig.keys@[j]));
            }
            assert forall|k: u64|
                self.map@.contains_key(k) <==> (orig.map@.contains_key(k) && !spec_stale(
                    orig.map@[k],
                    tol as int,
                    now,
                )) by {
                if orig.map@.contains_key(k) {
                    assert(orig.keys@.contains(k));
                    let j = choose|j: int| 0 <= j < orig.keys@.len() && orig.keys@[j] == k;
                    assert(self.map@.contains_key(orig.keys@[j]) <==> !spec_stale(
                        orig.map@[orig.keys@[j]],
                        tol as int,
                        now,
                    ));
                }
            }
        }
        self.keys = kept;
    }
}

/// Key independence: whether the state of one key's cell was committed by
/// an admission or left unchanged, the decision every *other* key would
/// receive is exactly what it was before.
pub proof fn lemma_key_independence(
    before: KeyedStateStore,
    after: KeyedStateStore,
    a: u64,
    b: u64,
    new_tat: u64,
    now: u64,
    q: Quota,
    n: u64,
)
    requires
        a != b,
        after.cells() == before.cells().insert(a, new_tat) || after.cells() == before.cells(),
    ensures
        after.spec_tat_of(b, now) == before.spec_tat_of(b, now),
        gcra::spec_decide(after.spec_tat_of(b, now), now, q, n) == gcra::spec_decide(
            before.spec_tat_of(b, now),
            now,
            q,
            n,
        ),
{
}

/// Reclamation is lossless: a check of a key that is absent from the store
/// — whether never seen or reclaimed after idling — decides exactly as a
/// first use against an entirely empty store would at the same instant.
pub proof fn lemma_reclaimed_key_is_fresh(
    s: KeyedStateStore,
    empty: KeyedStateStore,
    key: u64,
    now: u64,
    q: Quota,
    n: u64,
)
    requires
        !s.cells().contains_key(key),
        empty.cells() == Map::<u64, u64>::empty(),
    ensures
        s.spec_tat_of(key, now) == empty.spec_tat_of(key, now),
        gcra::spec_decide(s.spec_tat_of(key, now), now, q, n) == gcra::spec_decide(
            empty.spec_tat_of(key, now),
            now,
            q,
            n,
        ),
{
}

/// The store contents after a sequence of weight-1 keyed checks, each
/// given as the pair of the key checked and the instant of the check.
/// One step is exactly what [`KeyedStateStore::measure_and_replace_key`]
/// commits: an admission writes the key's new state, anything else leaves
/// the store untouched.
pub open spec fn spec_keyed_run(cells: Map<u64, u64>, q: Quota, checks: Seq<(u64, u64)>) -> Map<
    u64,
    u64,
>
    decreases checks.len(),
{
    if checks.len() == 0 {
        cells
    } else {
        let key = checks[0].0;
        let now = checks[0].1;
        let tat = if cells.contains_key(key) {
            cells[key]
        } else {
            now
        };
        let next = match gcra::spec_decide(tat, now, q, 1) {
            Decision::Admit { new_tat } => cells.insert(key, new_tat),
            _ => cells,
        };
        spec_keyed_run(next, q, checks.skip(1))
    }
}

/// The keys a sequence of checks touches.
pub open spec fn spec_checked_keys(checks: Seq<(u64, u64)>) -> Set<u64> {
    Set::new(|k: u64| exists|i: int| 0 <= i < checks.len() && checks[i].0 == k)
}

/// Bounded memory: however many checks run, the store only ever holds
/// cells for keys that were present before or were actually checked — the
/// number of live cells is bounded by the number of distinct keys seen,
/// never by the number of calls.
pub proof fn lemma_bounded_memory(cells: Map<u64, u64>, q: Quota, checks: Seq<(u64, u64)>)
    ensures
        spec_keyed_run(cells, q, checks).dom().subset_of(
            cells.dom().union(spec_checked_keys(checks)),
        ),
    decreases checks.len(),
{
    if checks.len() > 0 {
        let key = checks[0].0;
        let now = checks[0].1;
        let tat = if cells.contains_key(key) {
            cells[key]
        } else {
            now
        };
        let next = match gcra::spec_decide(tat, now, q, 1) {
            Decision::Admit { new_tat } => cells.insert(key, new_tat),
            _ => cells,
        };
        lemma_bounded_memory(next, q, checks.skip(1));
        assert forall|k: u64|
            spec_keyed_run(cells, q, checks).dom().contains(k) implies cells.dom().union(
            spec_checked_keys(checks),
        ).contains(k) by {
            if next.dom().contains(k) && !cells.dom().contains(k) {
                assert(k == key);
                assert(checks[0].0 == k);
            }
            if spec_checked_keys(checks.skip(1)).contains(k) {
                let i = choose|i: int| 0 <= i < checks.skip(1).len() && checks.skip(1)[i].0 == k;
                assert(checks[i + 1].0 == k);
            }
        }
    }
}

/// The rate limiter façade over per-key cells: a quota shared by every
/// key, a keyed store, and an injected clock.
pub struct KeyedRateLimiter<C: Clock> {
    pub quota: Quota,
    pub store: KeyedStateStore,
    pub clock: C,
}

impl<C: Clock> KeyedRateLimiter<C> {
    /// Well-formedness: a well-formed quota over a well-formed store.
    pub open spec fn wf(&self) -> bool {
        self.quota.wf() && self.store.wf()
    }

    /// The per-key cell states.
    pub open spec fn cells(&self) -> Map<u64, u64> {
        self.store.cells()
    }

    /// The decision a weight-`n` check of `key` issued in the limiter's
    /// present state would reach.  It reads only `key`'s own cell.
    pub open spec fn spec_decision_for(&self, key: u64, n: u64) -> Decision {
        gcra::spec_decide(
            self.store.spec_tat_of(key, self.clock.spec_now()),
            self.clock.spec_now(),
            self.quota,
            n,
        )
    }

    /// A keyed limiter over `quota`, reading time from `clock`.
    pub fn keyed_with_clock(quota: Quota, clock: C) -> (l: KeyedRateLimiter<C>)
        requires
            quota.wf(),
        ensures
            l.quota == quota,
            l.clock == clock,
            l.cells() == Map::<u64, u64>::empty(),
            l.wf(),
    {
        KeyedRateLimiter { quota, store: KeyedStateStore::new(), clock }
    }

    /// The quota this limiter enforces for each key.
    pub fn quota(&self) -> (q: Quota)
        ensures
            q == self.quota,
    {
        self.quota
    }

    /// The instant the limiter would use for a check issued now.
    pub fn reference_reading(&self) -> (t: u64)
        ensures
            t == self.clock.spec_now(),
    {
        self.clock.now()
    }

    /// The number of keys currently holding a cell.
    pub fn len(&self) -> (n: usize)
        ensures
            n == self.cells().len(),
    {
        self.store.len()
    }

    /// Checks a single cell (weight 1) against `key`'s budget.
    pub fn check_key(&mut self, key: u64) -> (r: Result<(), CheckError>)
        requires
            old(self).wf(),
        ensures
            final(self).wf(),
            final(self).quota == old(self).quota,
            final(self).clock == old(self).clock,
            ({
                let d = old(self).spec_decision_for(key, 1);
                &&& r == spec_result_of(d)
                &&& (d is Admit ==> final(self).cells() == old(self).cells().insert(
                    key,
                    d->new_tat,
                ))
                &&& (!(d is Admit) ==> final(self).cells() == old(self).cells())
            }),
            forall|k: u64|
                k != key && old(self).cells().contains_key(k) ==> final(self).cells().contains_key(k) && final(self).cells()[k] == old(self).cells()[k],
    {
        self.check_key_n(key, 1)
    }

    /// Checks `n` cells at once against `key`'s budget.  A weight above
    /// the quota's burst ceiling is reported as `InsufficientCapacity`,
    /// whatever the key's state.
    pub fn check_key_n(&mut self, key: u64, n: u64) -> (r: Result<(), CheckError>)
        requires
            old(self).wf(),
        ensures
            final(self).wf(),
            final(self).quota == old(self).quota,
            final(self).clock == old(self).clock,
            ({
                let d = old(self).spec_decision_for(key, n);
                &&& r == spec_result_of(d)
                &&& (d is Admit ==> final(self).cells() == old(self).cells().insert(
                    key,
                    d->new_tat,
                ))
                &&& (!(d is Admit) ==> final(self).cells() == old(self).cells())
            }),
            forall|k: u64|
                k != key && old(self).cells().contains_key(k) ==> final(self).cells().contains_key(k) && final(self).cells()[k] == old(self).cells()[k],
    {
        let now = self.clock.now();
        let d = self.store.measure_and_replace_key(key, &self.quota, now, n);
        result_of(d)
    }

    /// Reclaims every stale key: those whose cell has fallen more than the
    /// quota's tolerance behind the clock.  Surviving keys keep their
    /// state; a reclaimed key's next check starts from a fresh cell (see
    /// [`lemma_reclaimed_key_is_fresh`]).
    pub fn retain_recent(&mut self)
        requires
            old(self).wf(),
        ensures
            final(self).wf(),
            final(self).quota == old(self).quota,
            final(self).clock == old(self).clock,
            forall|k: u64|
                #[trigger] final(self).cells().contains_key(k) <==> (old(self).cells().contains_key(k) && !spec_stale(
                    old(self).cells()[k],
                    old(self).quota.spec_tolerance(),
                    old(self).clock.spec_now(),
                )),
            forall|k: u64|
                #[trigger] final(self).cells().contains_key(k) ==> final(self).cells()[k] == old(self).cells()[k],
    {
        let now = self.clock.now();
        let tol = self.quota.tolerance();
        self.store.retain_recent(tol, now);
    }
}

} // verus!
