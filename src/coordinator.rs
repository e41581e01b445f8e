use vstd::multiset::Multiset;
use vstd::prelude::*;

use crate::artifact::{held, paths, TempFile};
use crate::command::{decimal, decimal_spec, digit, digit_char};
use crate::error::{description, GifError};
use crate::refine::StrategyResult;

verus! {

broadcast use vstd::seq_lib::group_to_multiset_ensures;

/// Where a search may stop before any strategy runs: the input itself when
/// it is already within `target`, else the baseline pass's output when that
/// is. Returns the final size in that case, `None` when a search is needed.
pub fn short_circuit(original_size: u64, baseline_size: Option<u64>, target: u64) -> (r: Option<
    u64,
>)
    ensures
        original_size <= target ==> r == Some(original_size),
        forall|b: u64|
            original_size > target && baseline_size == Some(b) && b <= target ==> r == Some(b),
        original_size > target && !(baseline_size matches Some(b) && b <= target) ==> r is None,
{
    if original_size <= target {
        Some(original_size)
    } else {
        match baseline_size {
            Some(b) => if b <= target {
                Some(b)
            } else {
                None
            },
            None => None,
        }
    }
}

/// The running winner's size, and whether it is final, after one worker
/// result of `size` (usable when `success`) is taken in.
pub open spec fn merge_step(best_size: u64, found: bool, size: u64, success: bool, target: u64) -> (
    u64,
    bool,
) {
    if !found && success && (size <= target || size < best_size) {
        (size, size <= target)
    } else {
        (best_size, found)
    }
}

/// The running winner after taking in `results` (size, usable) in order.
pub open spec fn merge_all(best_size: u64, found: bool, results: Seq<(u64, bool)>, target: u64) -> (
    u64,
    bool,
)
    decreases results.len(),
{
    if results.len() == 0 {
        (best_size, found)
    } else {
        let prev = merge_all(best_size, found, results.drop_last(), target);
        merge_step(prev.0, prev.1, results.last().0, results.last().1, target)
    }
}

/// Once some result has met the budget, the winner is final: whatever
/// results arrive later, the selected size stays the one that met the
/// budget, and it is within the budget.
pub proof fn lemma_winner_final_once_found(
    best_size: u64,
    found: bool,
    results: Seq<(u64, bool)>,
    target: u64,
    i: int,
    j: int,
)
    requires
        0 <= i <= j <= results.len(),
        merge_all(best_size, found, results.take(i), target).1,
        found ==> best_size <= target,
    ensures
        merge_all(best_size, found, results.take(j), target) == merge_all(
            best_size,
            found,
            results.take(i),
            target,
        ),
        merge_all(best_size, found, results.take(j), target).0 <= target,
    decreases j,
{
    lemma_found_within_target(best_size, found, results.take(i), target);
    if j > i {
        assert(results.take(j).drop_last() =~= results.take(j - 1));
        lemma_winner_final_once_found(best_size, found, results, target, i, j - 1);
    }
}

proof fn lemma_found_within_target(best_size: u64, found: bool, results: Seq<(u64, bool)>, target: u64)
    requires
        found ==> best_size <= target,
    ensures
        merge_all(best_size, found, results, target).1 ==> merge_all(
            best_size,
            found,
            results,
            target,
        ).0 <= target,
    decreases results.len(),
{
    if results.len() > 0 {
        lemma_found_within_target(best_size, found, results.drop_last(), target);
    }
}

/// The coordinator's record of the running winner across worker results.
pub struct Merger {
    pub best_size: u64,
    pub best: Option<TempFile>,
    pub found: bool,
}

impl Merger {
    /// A winner within the budget is held once the budget is met.
    pub open spec fn wf(&self, target: u64) -> bool {
        self.found ==> (self.best is Some && self.best_size <= target)
    }

    /// Starts from the baseline pass's output of `size` bytes.
    pub fn new(size: u64, baseline: TempFile) -> (r: Merger)
        ensures
            r.best_size == size,
            r.best matches Some(f) && f@ == baseline@,
            !r.found,
    {
        Merger { best_size: size, best: Some(baseline), found: false }
    }

    /// Starts without a baseline (its pass failed): nothing is held yet.
    pub fn empty() -> (r: Merger)
        ensures
            r.best_size == u64::MAX,
            r.best is None,
            !r.found,
    {
        Merger { best_size: u64::MAX, best: None, found: false }
    }

    /// Takes in one worker's result. The first usable result within
    /// `target` becomes final; before that, a usable result strictly
    /// smaller than the running winner replaces it. Once the winner is
    /// final it never changes again. Returns every file that lost: no file
    /// is lost or kept twice.
    pub fn absorb(&mut self, result: StrategyResult, target: u64) -> (deleted: Vec<TempFile>)
        requires
            result.wf(),
            old(self).wf(target),
        ensures
            final(self).wf(target),
            (final(self).best_size, final(self).found) == merge_step(
                old(self).best_size,
                old(self).found,
                result.size,
                result.success,
                target,
            ),
            old(self).found ==> final(self).found && final(self).best_size == old(self).best_size
                && held(final(self).best) == held(old(self).best),
            !old(self).found && result.success && result.size <= target ==> final(self).found
                && final(self).best_size == result.size && held(final(self).best) == held(
                result.file,
            ),
            !old(self).found && result.success && target < result.size < old(self).best_size
                ==> !final(self).found && final(self).best_size == result.size && held(
                final(self).best,
            ) == held(result.file),
            !old(self).found && (!result.success || (target < result.size && old(self).best_size
                <= result.size)) ==> !final(self).found && final(self).best_size == old(
                self,
            ).best_size && held(final(self).best) == held(old(self).best),
            paths(deleted@).to_multiset().add(held(final(self).best)) == held(old(self).best).add(
                held(result.file),
            ),
    {
        let mut deleted: Vec<TempFile> = Vec::new();
        let replace = !self.found && result.success && (result.size <= target || result.size
            < self.best_size);
        if replace {
            if result.size <= target {
                self.found = true;
            }
            self.best_size = result.size;
            let mut incoming = result.file;
            core::mem::swap(&mut self.best, &mut incoming);
            match incoming {
                Some(f) => {
                    deleted.push(f);
                    assert(paths(deleted@) =~= seq![f@]);
                },
                None => {
                    assert(paths(deleted@) =~= Seq::<Seq<char>>::empty());
                },
            }
        } else {
            match result.file {
                Some(f) => {
                    deleted.push(f);
                    assert(paths(deleted@) =~= seq![f@]);
                },
                None => {
                    assert(paths(deleted@) =~= Seq::<Seq<char>>::empty());
                },
            }
        }
        deleted
    }

    /// Ends the search: the winning size and file, or `NoValidResults` when
    /// no file was ever held.
    pub fn finish(self) -> (r: Result<(u64, TempFile), GifError>)
        ensures
            self.best is None <==> r matches Err(GifError::NoValidResults),
            r is Ok <==> self.best is Some,
            r matches Ok((size, f)) ==> size == self.best_size && held(self.best)
                == Multiset::singleton(f@),
    {
        match self.best {
            Some(f) => Ok((self.best_size, f)),
            None => Err(GifError::NoValidResults),
        }
    }
}

/// Parameters of one compression request. Sizes are in bytes.
#[derive(Clone, Debug)]
pub struct CompressOptions {
    pub target_size: u64,
    pub min_frame_percent: u32,
    pub threads: usize,
}

/// What a compression request reports. Sizes are in bytes.
#[derive(Clone, Debug)]
pub struct CompressResult {
    pub success: bool,
    pub original_size: u64,
    pub compressed_size: u64,
    pub output_path: String,
    pub message: String,
}

/// The compression ratio `(1 - compressed / original) * 100`, written with
/// one decimal (halves rounded up), with a minus sign when the output grew.
/// An empty original counts as no change.
pub open spec fn ratio_text(original: int, compressed: int) -> Seq<char> {
    let grew = compressed > original;
    let diff = if grew { compressed - original } else { original - compressed };
    let tenths = if original == 0 { 0 } else { (diff * 2000 + original) / (2 * original) };
    (if grew { "-"@ } else { ""@ }) + decimal_spec((tenths / 10) as nat) + "."@ + seq![
        digit_char(tenths % 10),
    ]
}

/// Writes the compression ratio of `compressed` against `original`.
pub fn ratio(original: u64, compressed: u64) -> (r: String)
    ensures
        r@ == ratio_text(original as int, compressed as int),
{
    let grew = compressed > original;
    let diff: u128 = if grew { (compressed - original) as u128 } else { (original - compressed) as u128 };
    let tenths: u128 = if original == 0 {
        0
    } else {
        (diff * 2000 + original as u128) / (2 * original as u128)
    };
    let sign = if grew { String::from_str("-") } else { String::new() };
    let r = sign.concat(decimal(tenths / 10).as_str()).concat(".").concat(digit(tenths % 10));
    proof {
        reveal_strlit("");
    }
    assert(r@ =~= ratio_text(original as int, compressed as int));
    r
}

/// The report message of a search that ended with these sizes.
pub open spec fn outcome_message(original: int, compressed: int, target: int) -> Seq<char> {
    if compressed <= target {
        "成功压缩GIF到目标大小以下，压缩率: "@ + ratio_text(original, compressed) + "%"@
    } else {
        "无法达到目标大小，但已尽可能压缩，压缩率: "@ + ratio_text(original, compressed) + "%"@
    }
}

/// Turns the outcome of a search into the report handed to the caller: a
/// success exactly when the final size is within `target`, and a failure
/// with a description, zero sizes and no path when the search failed.
pub fn compress_outcome(outcome: Result<(u64, u64), GifError>, target: u64, output_path: String) -> (r:
    CompressResult)
    ensures
        outcome matches Ok((o, f)) ==> r.success == (f <= target) && r.original_size == o
            && r.compressed_size == f && r.output_path@ == output_path@ && r.message@
            == outcome_message(o as int, f as int, target as int),
        outcome is Err ==> !r.success && r.original_size == 0 && r.compressed_size == 0
            && r.output_path@.len() == 0 && r.message@ == "压缩失败: "@ + description(
            outcome->Err_0,
        ),
{
    match outcome {
        Ok((original_size, final_size)) => {
            let success = final_size <= target;
            let text = ratio(original_size, final_size);
            let message = if success {
                String::from_str("成功压缩GIF到目标大小以下，压缩率: ").concat(text.as_str()).concat("%")
            } else {
                String::from_str("无法达到目标大小，但已尽可能压缩，压缩率: ").concat(text.as_str()).concat(
                    "%",
                )
            };
            CompressResult {
                success,
                original_size,
                compressed_size: final_size,
                output_path,
                message,
            }
        },
        Err(e) => CompressResult {
            success: false,
            original_size: 0,
            compressed_size: 0,
            output_path: String::new(),
            message: String::from_str("压缩失败: ").concat(e.describe().as_str()),
        },
    }
}

} // verus!
