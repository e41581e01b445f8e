use gif_compressor::error::GifError;
use gif_compressor::frames::{frame_count, select_frame_indices};
use image::codecs::gif::GifEncoder;
use image::{Delay, Frame, Rgba, RgbaImage};

fn encoded_gif(frames: usize) -> Vec<u8> {
    let mut out = Vec::new();
    {
        let mut enc = GifEncoder::new(&mut out);
        for i in 0..frames {
            let img = RgbaImage::from_pixel(2, 2, Rgba([i as u8 * 40, 0, 0, 255]));
            let frame = Frame::from_parts(img, 0, 0, Delay::from_numer_denom_ms(100, 1));
            enc.encode_frame(frame).unwrap();
        }
    }
    out
}

#[test]
fn stride_keeps_every_nth_frame() {
    assert_eq!(select_frame_indices(10, 3).unwrap(), vec![0, 3, 6, 9]);
    assert_eq!(select_frame_indices(9, 3).unwrap(), vec![0, 3, 6]);
    assert_eq!(select_frame_indices(5, 1).unwrap(), vec![0, 1, 2, 3, 4]);
}

#[test]
fn kept_count_is_ceiling_of_total_over_stride() {
    for total in 1..40u64 {
        for stride in 1..12u64 {
            let kept = select_frame_indices(total, stride).unwrap();
            assert_eq!(kept.len() as u64, (total + stride - 1) / stride);
        }
    }
}

#[test]
fn stride_larger_than_input_keeps_first_frame() {
    assert_eq!(select_frame_indices(1, 5).unwrap(), vec![0]);
    assert_eq!(select_frame_indices(4, 20).unwrap(), vec![0]);
}

#[test]
fn frameless_input_is_rejected() {
    assert_eq!(select_frame_indices(0, 2), Err(GifError::NoFrames));
}

#[test]
fn frame_count_reads_encoded_animation() {
    assert_eq!(frame_count(&encoded_gif(3)), Ok(3));
    assert_eq!(frame_count(&encoded_gif(1)), Ok(1));
}

#[test]
fn frame_count_rejects_garbage() {
    assert!(matches!(frame_count(b"not a gif at all"), Err(GifError::Image(_))));
}
