use vstd::prelude::*;

verus! {

/// Smallest number of frames a subsampling strategy may leave.
pub const MIN_KEPT_FRAMES: u128 = 3;

/// Smallest stride of a generated strategy (stride 1 is the baseline pass).
pub const MIN_STRIDE: u64 = 2;

/// Largest stride of the regular strategy range.
pub const MAX_REGULAR_STRIDE: u64 = 10;

/// Above this many frames, more aggressive strides are tried as well.
pub const AGGRESSIVE_FRAME_THRESHOLD: u64 = 30;

/// Floor added to every computed inter-frame delay.
pub const DELAY_FLOOR: u16 = 10;

/// One subsampling attempt: keep every `stride`-th frame, shown for `delay`.
#[derive(Clone, Copy, Debug, PartialEq, Eq, Structural)]
pub struct Strategy {
    pub stride: u64,
    pub delay: u16,
}

/// `max(3, round(frames * percent / 100))`, rounding halves up.
pub open spec fn min_frames_spec(frames: int, percent: int) -> int {
    let r = (frames * percent + 50) / 100;
    if r < MIN_KEPT_FRAMES { MIN_KEPT_FRAMES as int } else { r }
}

/// `ceil(frames / min_frames)` clamped to `[2, 10]`.
pub open spec fn max_stride_spec(frames: int, min_frames: int) -> int {
    let c = (frames + min_frames - 1) / min_frames;
    if c < MIN_STRIDE { MIN_STRIDE as int } else if c > MAX_REGULAR_STRIDE { MAX_REGULAR_STRIDE as int } else { c }
}

/// `floor(100 * stride / frames) + 10`.
pub open spec fn delay_spec(stride: int, frames: int) -> int {
    (100 * stride) / frames + DELAY_FLOOR
}

pub open spec fn strategy_for(stride: int, frames: int) -> Strategy {
    Strategy { stride: stride as u64, delay: delay_spec(stride, frames) as u16 }
}

/// The regular strategies: one per stride in `[2, max_stride]`.
pub open spec fn regular_strategies(frames: int, max_stride: int) -> Seq<Strategy> {
    Seq::new((max_stride - 1) as nat, |i: int| strategy_for(i + 2, frames))
}

/// An aggressive stride is kept only if it still leaves `min_frames` frames;
/// stride `s` keeps `ceil(frames / s)` of them.
pub open spec fn aggressive_part(frames: int, stride: int, min_frames: int) -> Seq<Strategy> {
    if (frames + stride - 1) / stride >= min_frames {
        seq![strategy_for(stride, frames)]
    } else {
        seq![]
    }
}

/// The ordered strategy list for an input of `frames` frames.
pub open spec fn strategies_spec(frames: int, percent: int) -> Seq<Strategy> {
    let m = min_frames_spec(frames, percent);
    let k = max_stride_spec(frames, m);
    let regular = regular_strategies(frames, k);
    if frames > AGGRESSIVE_FRAME_THRESHOLD {
        regular + aggressive_part(frames, k + 5, m) + aggressive_part(frames, k + 10, m)
    } else {
        regular
    }
}

/// Fewest frames any strategy must keep.
pub fn min_frames(frames: u64, percent: u32) -> (r: u128)
    ensures
        r == min_frames_spec(frames as int, percent as int),
        r >= MIN_KEPT_FRAMES,
        r <= u64::MAX as u128 * u32::MAX as u128,
{
    assert((frames as int) * (percent as int) <= u64::MAX as int * u32::MAX as int) by (nonlinear_arith);
    let product: u128 = frames as u128 * percent as u128;
    let r: u128 = (product + 50) / 100;
    if r < MIN_KEPT_FRAMES { MIN_KEPT_FRAMES } else { r }
}

/// Largest regular stride for an input of `frames` frames.
pub fn max_stride(frames: u64, min_frames: u128) -> (r: u64)
    requires
        1 <= min_frames <= u64::MAX as u128 * u32::MAX as u128,
    ensures
        r == max_stride_spec(frames as int, min_frames as int),
        MIN_STRIDE <= r <= MAX_REGULAR_STRIDE,
{
    let c: u128 = (frames as u128 + min_frames - 1) / min_frames;
    if c < MIN_STRIDE as u128 {
        MIN_STRIDE
    } else if c > MAX_REGULAR_STRIDE as u128 {
        MAX_REGULAR_STRIDE
    } else {
        c as u64
    }
}

/// The inter-frame delay that goes with `stride` on an input of `frames` frames.
pub fn stride_delay(stride: u64, frames: u64) -> (r: u16)
    requires
        frames >= 1,
        stride <= MAX_REGULAR_STRIDE + 10,
    ensures
        r as int == delay_spec(stride as int, frames as int),
{
    let scaled: u64 = 100 * stride;
    assert(scaled / frames <= scaled) by (nonlinear_arith)
        requires frames >= 1;
    (scaled / frames) as u16 + DELAY_FLOOR
}

/// Builds the ordered list of subsampling strategies; the list depends on
/// the frame count and the minimum frame percentage alone.
pub fn generate_strategies(frames: u64, percent: u32) -> (r: Vec<Strategy>)
    requires
        frames >= 1,
    ensures
        r@ == strategies_spec(frames as int, percent as int),
        r@.len() >= 1,
{
    let m = min_frames(frames, percent);
    let k = max_stride(frames, m);
    let ghost regular = regular_strategies(frames as int, k as int);
    let mut out: Vec<Strategy> = Vec::new();
    let mut stride: u64 = MIN_STRIDE;
    while stride <= k
        invariant
            MIN_STRIDE <= stride <= k + 1,
            k <= MAX_REGULAR_STRIDE,
            frames >= 1,
            out@ =~= regular.take(stride - 2),
            regular == regular_strategies(frames as int, k as int),
        decreases k + 1 - stride,
    {
        let d = stride_delay(stride, frames);
        out.push(Strategy { stride, delay: d });
        stride = stride + 1;
    }
    assert(out@ =~= regular);
    if frames > AGGRESSIVE_FRAME_THRESHOLD {
        let first: u64 = k + 5;
        if (frames as u128 + first as u128 - 1) / first as u128 >= m {
            let d = stride_delay(first, frames);
            out.push(Strategy { stride: first, delay: d });
        }
        assert(out@ =~= regular + aggressive_part(frames as int, k + 5, m as int));
        let second: u64 = k + 10;
        if (frames as u128 + second as u128 - 1) / second as u128 >= m {
            let d = stride_delay(second, frames);
            out.push(Strategy { stride: second, delay: d });
        }
        assert(out@ =~= regular + aggressive_part(frames as int, k + 5, m as int)
            + aggressive_part(frames as int, k + 10, m as int));
    }
    out
}

/// Number of workers for a search: the requested count (or the hardware's
/// parallelism when zero is requested), never more than there are strategies.
pub fn worker_count(requested: usize, available: usize, strategies: usize) -> (r: usize)
    ensures
        r == (if requested == 0 { available } else { requested }) || r == strategies,
        r <= strategies,
        r <= (if requested == 0 { available } else { requested }),
{
    let wanted = if requested == 0 { available } else { requested };
    if wanted < strategies { wanted } else { strategies }
}

} // verus!
