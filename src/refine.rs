use vstd::prelude::*;

use crate::artifact::{held, paths, TempFile};

verus! {

broadcast use vstd::seq_lib::group_to_multiset_ensures;

/// Number of lossy levels tried together in one batch.
pub const LOSSY_BATCH_SIZE: usize = 2;

/// The ascending ladder of lossy-distortion levels, on the encoder's scale.
pub open spec fn lossy_ladder() -> Seq<u32> {
    seq![30u32, 60, 90, 120, 150, 180, 210, 240]
}

/// Number of batches the lossy ladder is cut into.
pub const LOSSY_BATCH_COUNT: usize = 4;

/// The levels of batch `i`: the ladder cut into consecutive pairs.
pub open spec fn lossy_batch_spec(i: int) -> Seq<u32> {
    lossy_ladder().subrange(i * LOSSY_BATCH_SIZE, i * LOSSY_BATCH_SIZE + LOSSY_BATCH_SIZE)
}

/// The levels of the `i`-th batch of the lossy ladder.
pub fn lossy_batch(i: usize) -> (r: Vec<u32>)
    requires
        i < LOSSY_BATCH_COUNT,
    ensures
        r@ == lossy_batch_spec(i as int),
        LOSSY_BATCH_COUNT * LOSSY_BATCH_SIZE == lossy_ladder().len(),
{
    let r = if i == 0 {
        vec![30u32, 60]
    } else if i == 1 {
        vec![90u32, 120]
    } else if i == 2 {
        vec![150u32, 180]
    } else {
        vec![210u32, 240]
    };
    assert(r@ =~= lossy_batch_spec(i as int));
    r
}

/// Smallest size, in bytes, of a subsampled file that counts as a result:
/// anything smaller means the merge produced no real animation.
pub const MIN_EXTRACTED_SIZE: u64 = 1024;

/// A measured size of at least `MIN_EXTRACTED_SIZE`.
pub open spec fn usable_size(size: Option<u64>) -> bool {
    size matches Some(s) && s >= MIN_EXTRACTED_SIZE
}

/// Whether the subsampled file, of measured size `size` (`None` when it could
/// not be read), is worth optimising further.
pub fn extraction_usable(size: Option<u64>) -> (r: bool)
    ensures
        r == usable_size(size),
{
    match size {
        Some(s) => s >= MIN_EXTRACTED_SIZE,
        None => false,
    }
}

/// One lossy re-encoding of a worker's current best file.
pub struct Candidate {
    /// The lossy level it was produced with.
    pub level: u32,
    /// The file it was written to.
    pub file: TempFile,
    /// Its size in bytes, or `None` when the encoder failed or the size
    /// could not be read.
    pub size: Option<u64>,
}

pub open spec fn candidate_sizes(batch: Seq<Candidate>) -> Seq<Option<u64>> {
    batch.map_values(|c: Candidate| c.size)
}

pub open spec fn candidate_files(batch: Seq<Candidate>) -> Seq<TempFile> {
    batch.map_values(|c: Candidate| c.file)
}

/// Scans the candidate sizes of a batch in order, starting from the current
/// best size and whether the budget is already met (then nothing changes).
/// A measured candidate replaces the best when strictly smaller, so the
/// smallest one no larger than the previous best is kept; the budget counts
/// as met once any measured candidate is within it. Yields the kept
/// position (if any), the resulting best size and whether the budget is met.
pub open spec fn batch_scan(sizes: Seq<Option<u64>>, best: u64, reached: bool, target: u64) -> (
    Option<int>,
    u64,
    bool,
)
    decreases sizes.len(),
{
    if sizes.len() == 0 {
        (None, best, reached)
    } else {
        let prev = batch_scan(sizes.drop_last(), best, reached, target);
        if reached || sizes.last() is None {
            prev
        } else {
            let s = sizes.last()->Some_0;
            if s < prev.1 {
                (Some(sizes.len() - 1), s, prev.2 || s <= target)
            } else {
                (prev.0, prev.1, prev.2 || s <= target)
            }
        }
    }
}

proof fn lemma_batch_scan_bounds(sizes: Seq<Option<u64>>, best: u64, reached: bool, target: u64)
    ensures
        batch_scan(sizes, best, reached, target).1 <= best,
        batch_scan(sizes, best, reached, target).0 matches Some(w) ==> 0 <= w < sizes.len()
            && sizes[w] == Some(batch_scan(sizes, best, reached, target).1),
        batch_scan(sizes, best, reached, target).0 is None ==> batch_scan(
            sizes,
            best,
            reached,
            target,
        ).1 == best,
        reached ==> batch_scan(sizes, best, reached, target) == (None::<int>, best, true),
    decreases sizes.len(),
{
    if sizes.len() > 0 {
        lemma_batch_scan_bounds(sizes.drop_last(), best, reached, target);
    }
}

spec fn as_int(o: Option<usize>) -> Option<int> {
    match o {
        Some(w) => Some(w as int),
        None => None,
    }
}

/// After a batch, the best size is at most the previous best and at most
/// every measured candidate of the batch, so the smallest one is kept; and
/// if any measured candidate is within `target`, the budget counts as met.
/// (A batch taken in after the budget was met changes nothing.)
pub proof fn lemma_batch_keeps_smallest(
    sizes: Seq<Option<u64>>,
    best: u64,
    target: u64,
    k: int,
    v: u64,
)
    requires
        0 <= k < sizes.len(),
        sizes[k] == Some(v),
    ensures
        batch_scan(sizes, best, false, target).1 <= best,
        batch_scan(sizes, best, false, target).1 <= v,
        v <= target ==> batch_scan(sizes, best, false, target).2,
    decreases sizes.len(),
{
    lemma_batch_scan_bounds(sizes, best, false, target);
    let rest = sizes.drop_last();
    if k < sizes.len() - 1 {
        assert(rest[k] == sizes[k]);
        lemma_batch_keeps_smallest(rest, best, target, k, v);
    } else if rest.len() > 0 {
        lemma_batch_scan_bounds(rest, best, false, target);
    }
}

/// What one worker ends with: a size in bytes and the file holding it.
pub struct StrategyResult {
    pub size: u64,
    pub file: Option<TempFile>,
    pub success: bool,
}

impl StrategyResult {
    /// A usable result holds its file; a failed one holds none.
    pub open spec fn wf(&self) -> bool {
        self.success <==> self.file is Some
    }

    /// The result of a worker that stopped without a usable candidate.
    pub fn failed() -> (r: StrategyResult)
        ensures
            r.wf(),
            !r.success,
            r.size == u64::MAX,
    {
        StrategyResult { size: u64::MAX, file: None, success: false }
    }
}

/// One worker's progress through the lossy ladder: its best size so far,
/// the file that holds it, and whether the budget has been met.
pub struct Refiner {
    pub best_size: u64,
    pub best: TempFile,
    pub reached: bool,
}

impl Refiner {
    /// Starts from the subsampled and re-optimised file of `size` bytes.
    pub fn start(size: u64, file: TempFile, target: u64) -> (r: Refiner)
        ensures
            r.best_size == size,
            r.best@ == file@,
            r.reached == (size <= target),
    {
        Refiner { best_size: size, best: file, reached: size <= target }
    }

    /// Whether another batch is worth issuing: the budget is not met yet,
    /// here or (as far as this worker has seen) by any other worker.
    pub fn keep_refining(&self, target_found: bool) -> (r: bool)
        ensures
            r == (!self.reached && !target_found),
    {
        !self.reached && !target_found
    }

    /// Takes in one batch of lossy candidates: the smallest one that beats
    /// the current best becomes the best, and the budget counts as met if
    /// any candidate is within `target`. Returns every file that is no longer needed: the candidates
    /// not kept, and the previous best when it was replaced. No file is
    /// lost or kept twice.
    pub fn absorb_batch(&mut self, batch: Vec<Candidate>, target: u64) -> (deleted: Vec<TempFile>)
        ensures
            ({
                let s = batch_scan(
                    candidate_sizes(batch@),
                    old(self).best_size,
                    old(self).reached,
                    target,
                );
                &&& final(self).best_size == s.1
                &&& final(self).reached == s.2
                &&& s.0 matches Some(w) ==> final(self).best@ == batch@[w].file@
                &&& s.0 is None ==> final(self).best@ == old(self).best@
            }),
            final(self).best_size <= old(self).best_size,
            old(self).reached ==> final(self).reached && final(self).best_size == old(
                self,
            ).best_size,
            paths(deleted@).to_multiset().insert(final(self).best@) == paths(
                candidate_files(batch@),
            ).to_multiset().insert(old(self).best@),
    {
        let ghost sizes = candidate_sizes(batch@);
        let ghost orig = batch@;
        let n = batch.len();
        let mut winner: Option<usize> = None;
        let mut best = self.best_size;
        let mut hit = self.reached;
        let mut i: usize = 0;
        while i < n
            invariant
                n == batch@.len(),
                batch@ == orig,
                sizes == candidate_sizes(orig),
                0 <= i <= n,
                (as_int(winner), best, hit) == batch_scan(
                    sizes.take(i as int),
                    self.best_size,
                    self.reached,
                    target,
                ),
            decreases n - i,
        {
            assert(sizes.take(i + 1).drop_last() =~= sizes.take(i as int));
            if !self.reached {
                match batch[i].size {
                    Some(s) => {
                        if s < best {
                            winner = Some(i);
                            best = s;
                        }
                        hit = hit || s <= target;
                    },
                    None => {},
                }
            }
            i = i + 1;
        }
        assert(sizes.take(n as int) =~= sizes);
        proof {
            lemma_batch_scan_bounds(sizes, self.best_size, self.reached, target);
        }
        let mut batch = batch;
        let mut deleted: Vec<TempFile> = Vec::new();
        let mut kept: Option<TempFile> = None;
        while batch.len() > 0
            invariant
                batch@.len() <= n,
                n == orig.len(),
                batch@ =~= orig.take(batch@.len() as int),
                as_int(winner) matches Some(w) ==> 0 <= w < n,
                forall|w: int|
                    as_int(winner) == Some(w) && w >= batch@.len() ==> (kept matches Some(f)
                        && f@ == orig[w].file@),
                !(as_int(winner) matches Some(w) && w >= batch@.len()) ==> kept is None,
                paths(deleted@).to_multiset().add(paths(candidate_files(batch@)).to_multiset()).add(
                    held(kept),
                ) == paths(candidate_files(orig)).to_multiset(),
            decreases batch@.len(),
        {
            let ghost before = batch@;
            let c = batch.pop().unwrap();
            let j = batch.len();
            assert(paths(candidate_files(batch@)).push(c.file@) =~= paths(
                candidate_files(before),
            ));
            let is_winner = match winner {
                Some(w) => w == j,
                None => false,
            };
            if is_winner {
                kept = Some(c.file);
            } else {
                let ghost prior = deleted@;
                deleted.push(c.file);
                assert(paths(deleted@) =~= paths(prior).push(c.file@));
            }
        }
        assert(paths(candidate_files(batch@)) =~= Seq::<Seq<char>>::empty());
        match kept {
            Some(f) => {
                let mut f = f;
                core::mem::swap(&mut self.best, &mut f);
                let ghost prior = deleted@;
                deleted.push(f);
                assert(paths(deleted@) =~= paths(prior).push(f@));
            },
            None => {},
        }
        self.best_size = best;
        self.reached = hit;
        deleted
    }

    /// Ends the refinement: the best size reached and its file.
    pub fn finish(self) -> (r: StrategyResult)
        ensures
            r.wf(),
            r.success,
            r.size == self.best_size,
            r.file matches Some(f) && f@ == self.best@,
    {
        StrategyResult { size: self.best_size, file: Some(self.best), success: true }
    }
}

} // verus!
