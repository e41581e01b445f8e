use image::AnimationDecoder;
use vstd::prelude::*;

use crate::error::GifError;

verus! {

/// What the GIF decoder makes of an encoded animation: `Some(n)` when all
/// `n` frames decode, `None` when decoding fails.
pub uninterp spec fn gif_frame_count_of(bytes: Seq<u8>) -> Option<nat>;

/// Relies on `image::codecs::gif::GifDecoder::new` and
/// `Frames::collect_frames`: the frame list of an encoded GIF, or the first
/// decoding error; the outcome depends on the bytes alone.
#[verifier::external_body]
fn decode_frame_count(bytes: &[u8]) -> (r: Result<usize, String>)
    ensures
        r is Ok <==> gif_frame_count_of(bytes@) is Some,
        r is Ok ==> r->Ok_0 as nat == gif_frame_count_of(bytes@)->Some_0,
{
    let decoder = image::codecs::gif::GifDecoder::new(std::io::Cursor::new(bytes))
        .map_err(|e| e.to_string())?;
    decoder.into_frames().collect_frames().map(|f| f.len()).map_err(|e| e.to_string())
}

/// Counts the frames of an encoded animation; an animation without frames
/// is an error.
pub fn frame_count(bytes: &[u8]) -> (r: Result<usize, GifError>)
    ensures
        gif_frame_count_of(bytes@) is None <==> r matches Err(GifError::Image(_)),
        gif_frame_count_of(bytes@) == Some(0nat) <==> r matches Err(GifError::NoFrames),
        r is Ok <==> (gif_frame_count_of(bytes@) matches Some(n) && n >= 1),
        r is Ok ==> Some(r->Ok_0 as nat) == gif_frame_count_of(bytes@),
{
    match decode_frame_count(bytes) {
        Ok(0) => Err(GifError::NoFrames),
        Ok(n) => Ok(n),
        Err(m) => Err(GifError::Image(m)),
    }
}

/// `ceil(total / stride)`: how many positions `0, stride, 2 * stride, ...`
/// lie below `total`.
pub open spec fn subsample_len(total: int, stride: int) -> int {
    (total + stride - 1) / stride
}

/// The frame positions kept when every `stride`-th frame of `total` is kept.
pub open spec fn subsample_positions(total: int, stride: int) -> Seq<u64> {
    Seq::new(subsample_len(total, stride) as nat, |i: int| (i * stride) as u64)
}

proof fn lemma_ceil_div(total: int, stride: int, count: int)
    requires
        stride >= 1,
        count >= 1,
        (count - 1) * stride < total,
        total <= count * stride,
    ensures
        subsample_len(total, stride) == count,
{
    assert((total + stride - 1) / stride == count) by (nonlinear_arith)
        requires
            stride >= 1,
            (count - 1) * stride < total,
            total <= count * stride,
    {
        assert(count * stride <= total + stride - 1);
        assert(total + stride - 1 < (count + 1) * stride);
    }
}

/// Positions of the frames kept by subsampling `total` frames with `stride`:
/// `0, stride, 2 * stride, ...`, that is `ceil(total / stride)` of them. A
/// frameless input is an error.
pub fn select_frame_indices(total: u64, stride: u64) -> (r: Result<Vec<u64>, GifError>)
    requires
        stride >= 1,
    ensures
        total == 0 <==> r matches Err(GifError::NoFrames),
        r is Ok <==> total >= 1,
        r is Ok ==> r->Ok_0@ == subsample_positions(total as int, stride as int),
        r is Ok ==> r->Ok_0@.len() == subsample_len(total as int, stride as int) >= 1,
{
    if total == 0 {
        return Err(GifError::NoFrames);
    }
    let mut out: Vec<u64> = Vec::new();
    let mut pos: u64 = 0;
    let mut done = false;
    assert(out@.len() * stride == 0);
    while !done
        invariant
            stride >= 1,
            total >= 1,
            forall|i: int| 0 <= i < out@.len() ==> out@[i] == i * stride,
            !done ==> pos == out@.len() * stride && pos < total,
            done ==> out@.len() >= 1 && (out@.len() - 1) * stride < total && total <= out@.len()
                * stride,
        decreases (if done { 0int } else { total - out@.len() * stride + 1 }),
    {
        let ghost n = out@.len();
        out.push(pos);
        assert((n + 1) * stride == n * stride + stride) by (nonlinear_arith);
        if total - pos <= stride {
            done = true;
        } else {
            pos = pos + stride;
        }
    }
    proof {
        lemma_ceil_div(total as int, stride as int, out@.len() as int);
    }
    assert(out@ =~= subsample_positions(total as int, stride as int));
    Ok(out)
}

} // verus!
