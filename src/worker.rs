use vstd::multiset::Multiset;
use vstd::prelude::*;

use crate::artifact::{held, paths, TempFile};
use crate::refine::{
    batch_scan, candidate_files, candidate_sizes, extraction_usable, lossy_batch, lossy_batch_spec, Candidate, Refiner,
    StrategyResult, usable_size, LOSSY_BATCH_COUNT,
};

verus! {

broadcast use vstd::seq_lib::group_to_multiset_ensures, vstd::seq_lib::lemma_multiset_commutative;

/// Where a worker stands in its strategy.
#[derive(Clone, Copy, Debug, PartialEq, Eq, Structural)]
pub enum Stage {
    /// Waiting for the subsampled file.
    Extracting,
    /// Waiting for the re-optimised subsampled file.
    Optimising,
    /// Walking the lossy ladder.
    Refining,
    /// Nothing more to do.
    Done,
}

/// What a worker asks its runner to do next.
#[derive(Clone, Debug)]
pub enum WorkerAction {
    /// Subsample the input into a fresh file, then call `extracted`.
    Extract,
    /// Re-optimise the subsampled file into a fresh file, then call `optimised`.
    Reoptimize,
    /// Recompress the current best file once per level, each into a fresh
    /// file, then call `batch_done`.
    Lossy(Vec<u32>),
    /// Stop, and collect the result with `finish`.
    Stop,
}

/// The decisions of one worker running one strategy. The runner performs
/// each action and reports back; the worker decides what comes next, when
/// to give up, and which files are no longer needed.
pub struct Worker {
    pub stage: Stage,
    pub extracted: Option<TempFile>,
    pub refiner: Option<Refiner>,
    pub next_batch: usize,
    pub target: u64,
}

/// The paths held by an optional refiner.
pub open spec fn refiner_held(r: Option<Refiner>) -> Multiset<Seq<char>> {
    match r {
        Some(r) => Multiset::singleton(r.best@),
        None => Multiset::empty(),
    }
}

pub open spec fn deleted_paths(d: Vec<TempFile>) -> Multiset<Seq<char>> {
    paths(d@).to_multiset()
}

impl Worker {
    /// The files the worker is responsible for.
    pub open spec fn files(&self) -> Multiset<Seq<char>> {
        held(self.extracted).add(refiner_held(self.refiner))
    }

    /// Each stage holds exactly the files it needs.
    pub open spec fn wf(&self) -> bool {
        &&& self.stage == Stage::Extracting ==> self.extracted is None && self.refiner is None
        &&& self.stage == Stage::Optimising ==> self.extracted is Some && self.refiner is None
        &&& self.stage == Stage::Refining ==> self.extracted is None && self.refiner is Some
        &&& self.stage == Stage::Done ==> self.extracted is None
        &&& self.next_batch <= LOSSY_BATCH_COUNT
    }

    /// Starts a worker for a budget of `target` bytes; it gives up at once
    /// when another worker has already met the budget.
    pub fn begin(target: u64, target_found: bool) -> (r: (Worker, WorkerAction))
        ensures
            r.0.wf(),
            r.0.target == target,
            r.0.files() =~= Multiset::empty(),
            r.0.refiner is None,
            target_found ==> r.0.stage == Stage::Done && r.1 is Stop,
            !target_found ==> r.0.stage == Stage::Extracting && r.1 is Extract,
    {
        let stage = if target_found { Stage::Done } else { Stage::Extracting };
        let w = Worker { stage, extracted: None, refiner: None, next_batch: 0, target };
        (w, if target_found { WorkerAction::Stop } else { WorkerAction::Extract })
    }

    /// Gives up (a temporary file could not be created): hands back every
    /// file held.
    pub fn abandon(&mut self) -> (deleted: Vec<TempFile>)
        requires
            old(self).wf(),
        ensures
            final(self).wf(),
            final(self).stage == Stage::Done,
            final(self).refiner is None,
            final(self).target == old(self).target,
            deleted_paths(deleted) == old(self).files(),
    {
        let mut deleted: Vec<TempFile> = Vec::new();
        let mut e: Option<TempFile> = None;
        core::mem::swap(&mut self.extracted, &mut e);
        match e {
            Some(f) => {
                deleted.push(f);
            },
            None => {},
        }
        let ghost mid = deleted@;
        let mut r: Option<Refiner> = None;
        core::mem::swap(&mut self.refiner, &mut r);
        match r {
            Some(r) => {
                deleted.push(r.best);
            },
            None => {},
        }
        proof {
            if mid.len() == 1 {
                assert(paths(mid) =~= seq![mid[0]@]);
            } else {
                assert(paths(mid) =~= Seq::<Seq<char>>::empty());
            }
            if deleted@.len() > mid.len() {
                assert(paths(deleted@) =~= paths(mid).push(deleted@.last()@));
            } else {
                assert(deleted@ == mid);
            }
        }
        self.stage = Stage::Done;
        deleted
    }

    /// Reports the subsampled file and its measured size (`None` when the
    /// subsampling or the measurement failed). The worker goes on to
    /// re-optimise it only if it is large enough to be a real animation and
    /// no other worker has met the budget; otherwise it gives the file back
    /// and stops.
    pub fn extracted(&mut self, file: TempFile, size: Option<u64>, target_found: bool) -> (r: (
        WorkerAction,
        Vec<TempFile>,
    ))
        requires
            old(self).wf(),
            old(self).stage == Stage::Extracting,
        ensures
            final(self).wf(),
            final(self).target == old(self).target,
            final(self).refiner is None,
            deleted_paths(r.1).add(final(self).files()) == Multiset::singleton(file@),
            !target_found && usable_size(size) ==> final(self).stage == Stage::Optimising
                && r.1@.len() == 0 && r.0 is Reoptimize,
            !(!target_found && usable_size(size)) ==> final(self).stage == Stage::Done
                && r.0 is Stop,
    {
        let mut deleted: Vec<TempFile> = Vec::new();
        if !target_found && extraction_usable(size) {
            self.extracted = Some(file);
            self.stage = Stage::Optimising;
            assert(paths(deleted@) =~= Seq::<Seq<char>>::empty());
            (WorkerAction::Reoptimize, deleted)
        } else {
            deleted.push(file);
            assert(paths(deleted@) =~= seq![file@]);
            self.stage = Stage::Done;
            (WorkerAction::Stop, deleted)
        }
    }

    /// The next step while refining. The worker stops with its best file
    /// once the budget is met here or the ladder is used up. If another
    /// worker has met the budget first, it gives up: it hands its file back
    /// and ends without a result. Otherwise it asks for the next batch.
    fn advance(&mut self, target_found: bool) -> (r: (WorkerAction, Vec<TempFile>))
        requires
            old(self).wf(),
            old(self).stage == Stage::Refining,
        ensures
            final(self).wf(),
            final(self).target == old(self).target,
            final(self).extracted == old(self).extracted,
            deleted_paths(r.1).add(final(self).files()) == old(self).files(),
            ({
                let rf = old(self).refiner->Some_0;
                let go = !rf.reached && !target_found && old(self).next_batch < LOSSY_BATCH_COUNT;
                &&& go ==> final(self).stage == Stage::Refining && final(self).next_batch
                    == old(self).next_batch + 1 && (r.0 matches WorkerAction::Lossy(levels)
                    && levels@ == lossy_batch_spec(old(self).next_batch as int))
                    && final(self).refiner == old(self).refiner && r.1@.len() == 0
                &&& !go ==> final(self).stage == Stage::Done && r.0 is Stop
                &&& (!rf.reached && target_found) ==> final(self).refiner is None
                &&& !(!rf.reached && target_found) ==> final(self).refiner == old(self).refiner
                    && r.1@.len() == 0
            }),
    {
        let mut rf: Option<Refiner> = None;
        core::mem::swap(&mut self.refiner, &mut rf);
        let refiner = rf.unwrap();
        let mut deleted: Vec<TempFile> = Vec::new();
        assert(held(self.extracted) =~= Multiset::empty());
        if !refiner.reached && target_found {
            let ghost p = refiner.best@;
            deleted.push(refiner.best);
            assert(paths(deleted@) =~= seq![p]);
            self.stage = Stage::Done;
            (WorkerAction::Stop, deleted)
        } else if refiner.keep_refining(target_found) && self.next_batch < LOSSY_BATCH_COUNT {
            self.refiner = Some(refiner);
            let levels = lossy_batch(self.next_batch);
            self.next_batch = self.next_batch + 1;
            assert(paths(deleted@) =~= Seq::<Seq<char>>::empty());
            (WorkerAction::Lossy(levels), deleted)
        } else {
            self.refiner = Some(refiner);
            self.stage = Stage::Done;
            assert(paths(deleted@) =~= Seq::<Seq<char>>::empty());
            (WorkerAction::Stop, deleted)
        }
    }

    /// Reports the re-optimised file and its size (`None` when the encoder
    /// failed or the size could not be read). The subsampled file is no
    /// longer needed. With a size, refinement starts from this file: the
    /// worker stops with it if it is within the budget, gives up if another
    /// worker met the budget, and else asks for the first lossy batch.
    /// Without a size, the worker gives the file back and stops.
    pub fn optimised(&mut self, file: TempFile, size: Option<u64>, target_found: bool) -> (r: (
        WorkerAction,
        Vec<TempFile>,
    ))
        requires
            old(self).wf(),
            old(self).stage == Stage::Optimising,
            old(self).next_batch == 0,
        ensures
            final(self).wf(),
            final(self).target == old(self).target,
            deleted_paths(r.1).add(final(self).files()) == old(self).files().insert(file@),
            size is None ==> final(self).stage == Stage::Done && final(self).refiner is None
                && r.0 is Stop,
            forall|s: u64|
                size == Some(s) && s <= old(self).target ==> final(self).stage == Stage::Done
                    && r.0 is Stop && (final(self).refiner matches Some(rf) && rf.best_size == s
                    && rf.best@ == file@ && rf.reached),
            forall|s: u64|
                size == Some(s) && s > old(self).target && target_found ==> final(self).stage
                    == Stage::Done && r.0 is Stop && final(self).refiner is None,
            forall|s: u64|
                size == Some(s) && s > old(self).target && !target_found ==> final(self).stage
                    == Stage::Refining && (r.0 matches WorkerAction::Lossy(levels) && levels@
                    == lossy_batch_spec(0)) && (final(self).refiner matches Some(rf)
                    && rf.best_size == s && rf.best@ == file@ && !rf.reached),
    {
        let mut deleted: Vec<TempFile> = Vec::new();
        let mut e: Option<TempFile> = None;
        core::mem::swap(&mut self.extracted, &mut e);
        match e {
            Some(f) => {
                deleted.push(f);
                assert(paths(deleted@) =~= seq![f@]);
            },
            None => {},
        }
        match size {
            Some(s) => {
                let ghost fp = file@;
                self.refiner = Some(Refiner::start(s, file, self.target));
                self.stage = Stage::Refining;
                assert(held(self.extracted) =~= Multiset::empty());
                assert(self.files() =~= Multiset::singleton(fp));
                assert(old(self).files() =~= paths(deleted@).to_multiset());
                let ghost prior = deleted@;
                let (action, mut more) = self.advance(target_found);
                let ghost extra = more@;
                deleted.append(&mut more);
                assert(paths(deleted@) =~= paths(prior) + paths(extra));
                assert(deleted_paths(deleted) =~= paths(prior).to_multiset().add(
                    paths(extra).to_multiset(),
                ));
                (action, deleted)
            },
            None => {
                let ghost prior = deleted@;
                deleted.push(file);
                assert(paths(deleted@) =~= paths(prior).push(file@));
                self.stage = Stage::Done;
                (WorkerAction::Stop, deleted)
            },
        }
    }

    /// Reports one batch of lossy candidates. The refiner keeps the best of
    /// them (see `Refiner::absorb_batch`); the others and a replaced best
    /// are given back. Then, as `advance` decides, the worker asks for the
    /// next batch, stops with its best, or gives up.
    pub fn batch_done(&mut self, batch: Vec<Candidate>, target_found: bool) -> (r: (
        WorkerAction,
        Vec<TempFile>,
    ))
        requires
            old(self).wf(),
            old(self).stage == Stage::Refining,
        ensures
            final(self).wf(),
            final(self).target == old(self).target,
            deleted_paths(r.1).add(final(self).files()) == old(self).files().add(
                paths(candidate_files(batch@)).to_multiset(),
            ),
            ({
                let rf = old(self).refiner->Some_0;
                let s = batch_scan(candidate_sizes(batch@), rf.best_size, rf.reached, old(self).target);
                let go = !s.2 && !target_found && old(self).next_batch < LOSSY_BATCH_COUNT;
                &&& final(self).refiner is None <==> (!s.2 && target_found)
                &&& final(self).refiner matches Some(nr) ==> nr.best_size == s.1 && nr.reached
                    == s.2
                &&& forall|w: int|
                    final(self).refiner is Some && s.0 == Some(w) ==> final(self).refiner->Some_0.best@ == batch@[w].file@
                &&& final(self).refiner is Some && s.0 is None ==> final(self).refiner->Some_0.best@ == rf.best@
                &&& go ==> final(self).stage == Stage::Refining && final(self).next_batch
                    == old(self).next_batch + 1 && (r.0 matches WorkerAction::Lossy(levels)
                    && levels@ == lossy_batch_spec(old(self).next_batch as int))
                &&& !go ==> final(self).stage == Stage::Done && r.0 is Stop
            }),
    {
        let mut rf: Option<Refiner> = None;
        core::mem::swap(&mut self.refiner, &mut rf);
        let mut refiner = rf.unwrap();
        let ghost before = refiner.best@;
        let ghost cands = paths(candidate_files(batch@)).to_multiset();
        let mut deleted = refiner.absorb_batch(batch, self.target);
        let ghost after = refiner.best@;
        self.refiner = Some(refiner);
        assert(held(self.extracted) =~= Multiset::empty());
        assert(deleted_paths(deleted).add(self.files()) =~= paths(deleted@).to_multiset().insert(
            after,
        ));
        assert(old(self).files() =~= Multiset::singleton(before));
        assert(cands.insert(before) =~= Multiset::singleton(before).add(cands));
        let ghost prior = deleted@;
        let ghost mid_files = self.files();
        let (action, mut more) = self.advance(target_found);
        let ghost extra = more@;
        deleted.append(&mut more);
        assert(paths(deleted@) =~= paths(prior) + paths(extra));
        assert(deleted_paths(deleted) =~= paths(prior).to_multiset().add(
            paths(extra).to_multiset(),
        ));
        (action, deleted)
    }

    /// The worker's result: its best file and size once refinement has
    /// started, a failure otherwise.
    pub fn finish(self) -> (r: StrategyResult)
        requires
            self.wf(),
            self.stage == Stage::Done,
        ensures
            r.wf(),
            held(r.file) == self.files(),
            r.success == self.refiner is Some,
            self.refiner matches Some(rf) ==> r.size == rf.best_size,
            self.refiner is None ==> r.size == u64::MAX && r.file is None,
    {
        match self.refiner {
            Some(rf) => rf.finish(),
            None => StrategyResult::failed(),
        }
    }
}

} // verus!
