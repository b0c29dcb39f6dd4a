//! The pixel renderer: decodes an object's pixel payload and flattens
//! its frames into one single-channel 8-bit buffer in ascending
//! frame-index order.

use vstd::prelude::*;
use crate::trusted::{
    bits_stored_of, cols_of, decode_object, decode_ok, decoded_bits_stored, decoded_columns,
    decoded_frame_count, decoded_rows, decoded_voi_lut_ok, frame_count_of, frame_luma8,
    frame_samples_of, rows_of, voi_lut_ok_of, StagedObject,
};

verus! {

/// A rendered object: its frame geometry and the flattened
/// single-channel sample buffer, frame-major.
pub struct Rendered {
    pub width: u32,
    pub height: u32,
    pub frame_count: u32,
    pub samples: Vec<u8>,
}

/// Why rendering one object failed.
pub enum RenderError {
    /// The pixel payload could not be decoded.
    Decode { detail: String },
    /// The payload declares a stored bit depth the converter cannot
    /// take.
    UnsupportedDepth { bits_stored: u16 },
    /// The payload declares a value-of-interest lookup table wider
    /// than the conversion's bit width.
    UnsupportedLut {},
    /// One frame could not be converted to 8-bit grayscale.
    Frame { frame: u32, detail: String },
    /// One converted frame did not hold exactly width x height samples.
    FrameGeometry { frame: u32 },
}

/// Number of samples of one frame: width times height.
pub open spec fn frame_size(src: Seq<u8>) -> int {
    cols_of(src) * rows_of(src)
}

/// The grayscale samples of frame `i`, or the empty sequence where
/// the frame does not convert.
pub open spec fn frame_seq(src: Seq<u8>, i: u32) -> Seq<u8> {
    match frame_samples_of(src, i) {
        Some(f) => f,
        None => Seq::empty(),
    }
}

/// The flattening of the first `n` frames: the samples of frame 0,
/// then of frame 1, and so on through frame `n - 1`.
pub open spec fn flat_prefix(src: Seq<u8>, n: int) -> Seq<u8>
    decreases n,
{
    if n <= 0 {
        Seq::empty()
    } else {
        flat_prefix(src, n - 1) + frame_seq(src, (n - 1) as u32)
    }
}

/// The flattening of all frames of the payload, in ascending frame
/// order.
pub open spec fn flat_samples(src: Seq<u8>) -> Seq<u8> {
    flat_prefix(src, frame_count_of(src) as int)
}

/// The payload decodes, declares a stored bit depth and
/// value-of-interest tables the converter takes, and every frame
/// converts to exactly width x height samples.
pub open spec fn frames_renderable(src: Seq<u8>) -> bool {
    &&& decode_ok(src)
    &&& 1 <= bits_stored_of(src) <= 32
    &&& voi_lut_ok_of(src)
    &&& forall|i: u32|
        i < frame_count_of(src) ==> (#[trigger] frame_samples_of(src, i)) is Some
            && frame_seq(src, i).len() == frame_size(src)
}

/// `img` is the rendering of the object encoded by `src`: its
/// geometry is the decoder's, its buffer holds frame-count times
/// width times height samples, and the samples of frame `i` stand at
/// `[i * width * height, (i + 1) * width * height)`, in frame order.
pub open spec fn rendered_from(img: Rendered, src: Seq<u8>) -> bool {
    &&& frames_renderable(src)
    &&& img.width == cols_of(src)
    &&& img.height == rows_of(src)
    &&& img.frame_count == frame_count_of(src)
    &&& img.samples@ == flat_samples(src)
    &&& img.samples@.len() == img.frame_count * frame_size(src)
    &&& forall|i: u32, j: int|
        i < img.frame_count && 0 <= j < frame_size(src) ==> img.samples@[i * frame_size(src) + j]
            == #[trigger] frame_seq(src, i)[j]
}

/// Decodes the pixel payload of a staged object and flattens its
/// frames, in ascending frame order, into one single-channel 8-bit
/// buffer. Succeeds exactly when the payload decodes and every frame
/// converts to a frame-sized grayscale buffer.
pub fn render_object(o: &StagedObject) -> (r: Result<Rendered, RenderError>)
    ensures
        r matches Ok(img) ==> rendered_from(img, o@),
        r is Ok <==> frames_renderable(o@),
        r matches Err(RenderError::Decode { .. }) ==> !decode_ok(o@),
        r matches Err(RenderError::UnsupportedDepth { bits_stored }) ==> decode_ok(o@)
            && bits_stored == bits_stored_of(o@) && !(1 <= bits_stored_of(o@) <= 32),
        r matches Err(RenderError::UnsupportedLut { .. }) ==> decode_ok(o@) && 1
            <= bits_stored_of(o@) <= 32 && !voi_lut_ok_of(o@),
        r matches Err(RenderError::Frame { frame, .. }) ==> decode_ok(o@) && frame
            < frame_count_of(o@) && frame_samples_of(o@, frame) is None,
        r matches Err(RenderError::FrameGeometry { frame }) ==> decode_ok(o@) && frame
            < frame_count_of(o@) && frame_samples_of(o@, frame) is Some && frame_seq(o@, frame).len()
            != frame_size(o@),
{
    let d = match decode_object(o) {
        Ok(d) => d,
        Err(detail) => {
            return Err(RenderError::Decode { detail });
        },
    };
    let bits_stored = decoded_bits_stored(&d);
    if bits_stored == 0 || bits_stored > 32 {
        return Err(RenderError::UnsupportedDepth { bits_stored });
    }
    if !decoded_voi_lut_ok(&d) {
        return Err(RenderError::UnsupportedLut {});
    }
    let width = decoded_columns(&d);
    let height = decoded_rows(&d);
    let frame_count = decoded_frame_count(&d);
    proof {
        assert((width as int) * (height as int) <= 4294967295int * 4294967295int)
            by (nonlinear_arith)
            requires
                0 <= width as int <= 4294967295int,
                0 <= height as int <= 4294967295int,
        ;
    }
    let fs: u64 = (width as u64) * (height as u64);
    let mut samples: Vec<u8> = Vec::new();
    let mut i: u32 = 0;
    while i < frame_count
        invariant
            d@ == o@,
            decode_ok(o@),
            1 <= bits_stored_of(o@) <= 32,
            voi_lut_ok_of(o@),
            width == cols_of(o@),
            height == rows_of(o@),
            frame_count == frame_count_of(o@),
            fs == frame_size(o@),
            i <= frame_count,
            samples@ == flat_prefix(o@, i as int),
            samples@.len() == i * frame_size(o@),
            forall|k: u32|
                k < i ==> (#[trigger] frame_samples_of(o@, k)) is Some && frame_seq(o@, k).len()
                    == frame_size(o@),
            forall|k: u32, j: int|
                k < i && 0 <= j < frame_size(o@) ==> samples@[k * frame_size(o@) + j]
                    == #[trigger] frame_seq(o@, k)[j],
        decreases frame_count - i,
    {
        let f = match frame_luma8(&d, i) {
            Ok(f) => f,
            Err(detail) => {
                return Err(RenderError::Frame { frame: i, detail });
            },
        };
        if f.len() as u64 != fs {
            return Err(RenderError::FrameGeometry { frame: i });
        }
        let ghost old_samples = samples@;
        samples.extend_from_slice(f.as_slice());
        proof {
            assert forall|t: int| 0 <= t < samples@.len() implies samples@[t] == (old_samples
                + f@)[t] by {
                if t >= old_samples.len() {
                    assert(cloned::<u8>(f@[t - old_samples.len()], samples@[t]));
                }
            }
            assert(samples@ =~= old_samples + f@);
            assert(samples@ == flat_prefix(o@, i + 1));
            assert forall|k: u32, j: int| k < i + 1 && 0 <= j < frame_size(o@) implies samples@[k
                * frame_size(o@) + j] == #[trigger] frame_seq(o@, k)[j] by {
                if k < i {
                    assert(old_samples[k * frame_size(o@) + j] == frame_seq(o@, k)[j]);
                    assert(k * frame_size(o@) + j < old_samples.len()) by (nonlinear_arith)
                        requires
                            old_samples.len() == i * frame_size(o@),
                            k < i,
                            0 <= j < frame_size(o@),
                    ;
                } else {
                    assert(k == i);
                    assert(samples@[i * frame_size(o@) + j] == f@[j]);
                }
            }
            assert(samples@.len() == (i + 1) * frame_size(o@)) by (nonlinear_arith)
                requires
                    samples@.len() == i * frame_size(o@) + frame_size(o@),
            ;
        }
        i = i + 1;
    }
    Ok(Rendered { width, height, frame_count, samples })
}

/// In a rendered buffer, the samples of frame `i` are exactly the
/// decoder's samples for frame `i`, standing as one contiguous slice
/// at `[i * width * height, (i + 1) * width * height)`.
pub proof fn lemma_frame_placement(img: Rendered, src: Seq<u8>, i: u32)
    requires
        rendered_from(img, src),
        i < img.frame_count,
    ensures
        img.samples@.subrange(
            i * frame_size(src),
            i * frame_size(src) + frame_size(src),
        ) == frame_seq(src, i),
{
    let fs = frame_size(src);
    assert(0 <= i * fs && i * fs + fs <= img.samples@.len()) by (nonlinear_arith)
        requires
            img.samples@.len() == img.frame_count * fs,
            i < img.frame_count,
            fs >= 0,
    ;
    assert(img.samples@.subrange(i * fs, i * fs + fs) =~= frame_seq(src, i));
}

/// Rendering is deterministic: any two renderings of the same object
/// bytes have the same geometry and byte-identical sample buffers,
/// whatever order the frames were converted in.
pub proof fn lemma_render_deterministic(src: Seq<u8>, a: Rendered, b: Rendered)
    requires
        rendered_from(a, src),
        rendered_from(b, src),
    ensures
        a.width == b.width,
        a.height == b.height,
        a.frame_count == b.frame_count,
        a.samples@ == b.samples@,
{
}

} // verus!
