use std::sync::atomic::{AtomicBool, AtomicU64, Ordering};
use vstd::prelude::*;

use crate::refine::StrategyResult;

verus! {

/// Whether `candidate` beats the recorded best size `current`.
pub fn improves(current: u64, candidate: u64) -> (r: bool)
    ensures
        r == (candidate < current),
{
    candidate < current
}

/// The recorded best size after the updates `updates`, applied in this
/// order to the initial value `initial`: each update keeps the smaller value.
pub open spec fn best_after(initial: u64, updates: Seq<u64>) -> u64
    decreases updates.len(),
{
    if updates.len() == 0 {
        initial
    } else {
        let prev = best_after(initial, updates.drop_last());
        if improves_spec(prev, updates.last()) { updates.last() } else { prev }
    }
}

pub open spec fn improves_spec(current: u64, candidate: u64) -> bool {
    candidate < current
}

/// Whatever order the concurrent updates take effect in, the recorded best
/// size never grows from one update to the next, and once all have taken
/// effect it is the minimum of the initial value and every update.
pub proof fn lemma_best_size_non_increasing(initial: u64, updates: Seq<u64>, i: int, j: int)
    requires
        0 <= i <= j <= updates.len(),
    ensures
        best_after(initial, updates.take(j)) <= best_after(initial, updates.take(i)),
        best_after(initial, updates) <= initial,
        forall|k: int| 0 <= k < updates.len() ==> best_after(initial, updates) <= updates[k],
        best_after(initial, updates) == initial || exists|k: int|
            0 <= k < updates.len() && best_after(initial, updates) == updates[k],
    decreases updates.len(),
{
    if updates.len() > 0 {
        let rest = updates.drop_last();
        if j == updates.len() {
            assert(updates.take(j) =~= updates);
            if i == j {
            } else {
                assert(updates.take(i) =~= rest.take(i));
                assert(rest.take(rest.len() as int) =~= rest);
                lemma_best_size_non_increasing(initial, rest, i, rest.len() as int);
            }
        } else {
            assert(updates.take(i) =~= rest.take(i));
            assert(updates.take(j) =~= rest.take(j));
            lemma_best_size_non_increasing(initial, rest, i, j);
        }
        lemma_best_size_non_increasing(initial, rest, 0, 0);
        assert forall|k: int| 0 <= k < updates.len() implies best_after(initial, updates)
            <= updates[k] by {
            if k < rest.len() {
                assert(rest[k] == updates[k]);
            }
        }
        if best_after(initial, updates) != initial && best_after(initial, updates) != updates.last() {
            let k = choose|k: int| 0 <= k < rest.len() && best_after(initial, rest) == rest[k];
            assert(updates[k] == rest[k]);
        }
    }
}

/// State shared by all workers of one search: the smallest size recorded so
/// far and whether some worker has met the budget. Both are single atomic
/// cells, updated without locks.
pub struct SharedState {
    found_target: AtomicBool,
    best_size: AtomicU64,
}

impl SharedState {
    /// A fresh state: nothing recorded, budget not met.
    pub fn new() -> SharedState {
        SharedState { found_target: AtomicBool::new(false), best_size: AtomicU64::new(u64::MAX) }
    }

    /// Records `size` if it is smaller than the recorded best, in one atomic
    /// step; returns whether it was.
    pub fn update_best_size(&self, size: u64) -> bool {
        let previous = self.best_size.fetch_min(size, Ordering::SeqCst);
        improves(previous, size)
    }

    /// The recorded best size.
    pub fn get_best_size(&self) -> u64 {
        self.best_size.load(Ordering::SeqCst)
    }

    /// Marks the budget as met; the mark is never cleared.
    pub fn set_found_target(&self) {
        self.found_target.store(true, Ordering::SeqCst);
    }

    /// Whether some worker has met the budget.
    pub fn is_target_found(&self) -> bool {
        self.found_target.load(Ordering::SeqCst)
    }

    /// Publishes a worker's result: a usable result is recorded, and if it
    /// meets the budget, the budget is marked as met.
    pub fn publish(&self, result: &StrategyResult, target: u64) {
        if result.success {
            self.update_best_size(result.size);
            if result.size <= target {
                self.set_found_target();
            }
        }
    }
}

} // verus!
