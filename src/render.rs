//! BGRA pixel buffers and the errors and states of the export pipeline.

use vstd::prelude::*;
use crate::encoder::EncoderError;

verus! {

/// BGRA pixel buffer.
#[derive(Debug, Clone)]
pub struct FrameBuffer {
    pub data: Vec<u8>,
    pub width: u32,
    pub height: u32,
    /// Bytes per row (width * 4 for BGRA)
    pub stride: u32,
}

/// Byte offset of pixel `(x, y)` in a buffer with the given row stride.
pub open spec fn pixel_offset(stride: u32, x: u32, y: u32) -> int {
    y * stride + x * 4
}

/// The byte at position `i` of a buffer filled with one BGRA color.
pub open spec fn solid_byte(b: u8, g: u8, r: u8, a: u8, i: int) -> u8 {
    if i % 4 == 0 {
        b
    } else if i % 4 == 1 {
        g
    } else if i % 4 == 2 {
        r
    } else {
        a
    }
}

/// Index, within a BGRA pixel, of the byte that lands at position `k` of the
/// same pixel in RGBA order.
pub open spec fn rgba_source_channel(k: int) -> int {
    if k == 0 {
        2
    } else if k == 2 {
        0
    } else {
        k
    }
}

/// One color channel of `src` composited over `dst` with source alpha `a`.
pub open spec fn blend_channel(s: u8, d: u8, a: u8) -> int {
    (s * a + d * (255 - a)) / 255
}

/// Alpha of `src` (alpha `a`) composited over a destination of alpha `d`.
pub open spec fn blend_alpha(d: u8, a: u8) -> int {
    let v = a + d * (255 - a) / 255;
    if v > 255 {
        255
    } else {
        v
    }
}

/// `src` composited over `dst`: `out = src * a + dst * (1 - a)` per color
/// channel, alpha `a + dst.a * (1 - a)` capped at full.
pub open spec fn spec_composite_over(dst: Seq<u8>, src: Seq<u8>) -> Seq<u8> {
    seq![
        blend_channel(src[0], dst[0], src[3]) as u8,
        blend_channel(src[1], dst[1], src[3]) as u8,
        blend_channel(src[2], dst[2], src[3]) as u8,
        blend_alpha(dst[3], src[3]) as u8,
    ]
}

proof fn lemma_blend_bounds(s: u8, d: u8, a: u8)
    ensures
        0 <= s * a + d * (255 - a) <= 255 * 255,
        0 <= blend_channel(s, d, a) <= 255,
        0 <= d * (255 - a) / 255 <= 255 - a,
{
    assert(0 <= s * a <= 255 * a) by (nonlinear_arith)
        requires
            s <= 255,
            0 <= a,
    ;
    assert(0 <= d * (255 - a) <= 255 * (255 - a)) by (nonlinear_arith)
        requires
            d <= 255,
            a <= 255,
    ;
    assert(0 <= d * (255 - a) / 255 <= 255 - a) by (nonlinear_arith)
        requires
            0 <= d * (255 - a) <= 255 * (255 - a),
            a <= 255,
    ;
    assert(0 <= (s * a + d * (255 - a)) / 255 <= 255) by (nonlinear_arith)
        requires
            0 <= s * a + d * (255 - a) <= 255 * 255,
    ;
}

proof fn lemma_offset_bound(stride: u32, x: u32, y: u32)
    ensures
        0 <= y * stride <= 0xffff_ffffu32 * 0xffff_ffffu32,
{
    assert(0 <= y * stride <= 0xffff_ffffu32 * 0xffff_ffffu32) by (nonlinear_arith)
        requires
            y <= 0xffff_ffffu32,
            stride <= 0xffff_ffffu32,
    ;
}

impl FrameBuffer {
    /// Rows are `4 * width` bytes and the data holds exactly `height` rows.
    pub open spec fn wf(&self) -> bool {
        &&& self.stride == 4 * self.width
        &&& self.data@.len() == self.stride * self.height
    }

    /// The pixel at `(x, y)`, or transparent black where it falls outside
    /// the data.
    pub open spec fn spec_pixel(&self, x: u32, y: u32) -> Seq<u8> {
        let o = pixel_offset(self.stride, x, y);
        if o + 3 < self.data@.len() {
            self.data@.subrange(o, o + 4)
        } else {
            seq![0u8, 0u8, 0u8, 0u8]
        }
    }

    /// A transparent black frame.
    pub fn new(width: u32, height: u32) -> (r: Self)
        requires
            4 * width <= u32::MAX,
            4 * width * height <= u32::MAX,
        ensures
            r.wf(),
            r.width == width,
            r.height == height,
            forall|i: int| 0 <= i < r.data@.len() ==> r.data@[i] == 0,
    {
        let stride: u32 = width * 4;
        let data = vec![0u8; (stride * height) as usize];
        FrameBuffer { data, width, height, stride }
    }

    /// A frame filled with one BGRA color.
    pub fn solid(width: u32, height: u32, b: u8, g: u8, r: u8, a: u8) -> (res: Self)
        requires
            4 * width <= u32::MAX,
            4 * width * height <= u32::MAX,
        ensures
            res.wf(),
            res.width == width,
            res.height == height,
            forall|i: int| 0 <= i < res.data@.len() ==> res.data@[i] == solid_byte(b, g, r, a, i),
    {
        let stride: u32 = width * 4;
        let len: usize = (stride * height) as usize;
        let mut data: Vec<u8> = Vec::with_capacity(len);
        let mut i: usize = 0;
        while i < len
            invariant
                i <= len,
                data@.len() == i,
                forall|k: int| 0 <= k < i ==> data@[k] == solid_byte(b, g, r, a, k),
            decreases len - i,
        {
            let v: u8 = if i % 4 == 0 {
                b
            } else if i % 4 == 1 {
                g
            } else if i % 4 == 2 {
                r
            } else {
                a
            };
            data.push(v);
            i = i + 1;
        }
        FrameBuffer { data, width, height, stride }
    }

    /// The pixel at `(x, y)` as `[B, G, R, A]`; transparent black outside
    /// the data.
    pub fn get_pixel(&self, x: u32, y: u32) -> (r: [u8; 4])
        ensures
            r@ == self.spec_pixel(x, y),
    {
        proof {
            lemma_offset_bound(self.stride, x, y);
        }
        let offset: u128 = y as u128 * self.stride as u128 + x as u128 * 4;
        if offset < self.data.len() as u128 && self.data.len() as u128 - offset > 3 {
            let o = offset as usize;
            let r = [self.data[o], self.data[o + 1], self.data[o + 2], self.data[o + 3]];
            assert(r@ =~= self.data@.subrange(o as int, o + 4));
            r
        } else {
            let r = [0u8, 0u8, 0u8, 0u8];
            assert(r@ =~= seq![0u8, 0u8, 0u8, 0u8]);
            r
        }
    }

    /// Write `pixel` at `(x, y)`; a position outside the data changes
    /// nothing.
    pub fn set_pixel(&mut self, x: u32, y: u32, pixel: [u8; 4])
        ensures
            final(self).width == old(self).width,
            final(self).height == old(self).height,
            final(self).stride == old(self).stride,
            ({
                let o = pixel_offset(old(self).stride, x, y);
                if o + 3 < old(self).data@.len() {
                    final(self).data@ == old(self).data@.update(o, pixel@[0]).update(
                        o + 1,
                        pixel@[1],
                    ).update(o + 2, pixel@[2]).update(o + 3, pixel@[3])
                } else {
                    final(self).data@ == old(self).data@
                }
            }),
    {
        proof {
            lemma_offset_bound(self.stride, x, y);
        }
        let offset: u128 = y as u128 * self.stride as u128 + x as u128 * 4;
        if offset < self.data.len() as u128 && self.data.len() as u128 - offset > 3 {
            let o = offset as usize;
            self.data.set(o, pixel[0]);
            self.data.set(o + 1, pixel[1]);
            self.data.set(o + 2, pixel[2]);
            self.data.set(o + 3, pixel[3]);
        }
    }

    /// Alpha-composite the `src` pixel over the `dst` pixel.
    pub fn composite_over(dst: [u8; 4], src: [u8; 4]) -> (r: [u8; 4])
        ensures
            r@ == spec_composite_over(dst@, src@),
    {
        let sa: u32 = src[3] as u32;
        let inv_sa: u32 = 255 - sa;
        proof {
            lemma_blend_bounds(src[0], dst[0], src[3]);
            lemma_blend_bounds(src[1], dst[1], src[3]);
            lemma_blend_bounds(src[2], dst[2], src[3]);
            lemma_blend_bounds(src[3], dst[3], src[3]);
        }
        let c0: u32 = (src[0] as u32 * sa + dst[0] as u32 * inv_sa) / 255;
        let c1: u32 = (src[1] as u32 * sa + dst[1] as u32 * inv_sa) / 255;
        let c2: u32 = (src[2] as u32 * sa + dst[2] as u32 * inv_sa) / 255;
        let al: u32 = sa + dst[3] as u32 * inv_sa / 255;
        let al: u32 = if al > 255 {
            255
        } else {
            al
        };
        let r = [c0 as u8, c1 as u8, c2 as u8, al as u8];
        assert(r@ =~= spec_composite_over(dst@, src@));
        r
    }
}

/// Compositing a fully transparent pixel leaves the destination as it was,
/// and compositing a fully opaque pixel yields that pixel.
pub proof fn lemma_composite_identity(dst: Seq<u8>, src: Seq<u8>)
    requires
        dst.len() == 4,
        src.len() == 4,
    ensures
        src[3] == 0 ==> spec_composite_over(dst, src) == dst,
        src[3] == 255 ==> spec_composite_over(dst, src) == src,
{
    if src[3] == 0 {
        assert forall|d: u8| #![trigger blend_alpha(d, 0)] blend_alpha(d, 0) == d by {
            assert(d * (255 - 0) / 255 == d) by (nonlinear_arith);
        }
        assert forall|s: u8, d: u8| #![trigger blend_channel(s, d, 0)]
            blend_channel(s, d, 0) == d by {
            assert((s * 0 + d * (255 - 0)) / 255 == d) by (nonlinear_arith);
        }
        assert(spec_composite_over(dst, src) =~= dst);
    }
    if src[3] == 255 {
        assert forall|s: u8, d: u8| #![trigger blend_channel(s, d, 255)]
            blend_channel(s, d, 255) == s by {
            assert((s * 255 + d * (255 - 255)) / 255 == s) by (nonlinear_arith);
        }
        assert forall|d: u8| #![trigger blend_alpha(d, 255)] blend_alpha(d, 255) == 255 by {
            assert(d * (255 - 255) / 255 == 0) by (nonlinear_arith);
        }
        assert(spec_composite_over(dst, src) =~= src);
    }
}

/// Convert BGRA pixel data to RGBA, pixel by pixel; bytes after the last
/// whole pixel are zero.
pub fn bgra_to_rgba(frame: &FrameBuffer) -> (r: Vec<u8>)
    ensures
        r@.len() == frame.data@.len(),
        forall|i: int|
            0 <= i < r@.len() ==> r@[i] == if i < frame.data@.len() - frame.data@.len() % 4 {
                frame.data@[i - i % 4 + rgba_source_channel(i % 4)]
            } else {
                0u8
            },
{
    let len: usize = frame.data.len();
    let whole: usize = len - len % 4;
    let mut rgba: Vec<u8> = Vec::with_capacity(len);
    let mut i: usize = 0;
    while i < len
        invariant
            i <= len,
            len == frame.data@.len(),
            whole == len - len % 4,
            rgba@.len() == i,
            forall|k: int|
                0 <= k < i ==> rgba@[k] == if k < whole {
                    frame.data@[k - k % 4 + rgba_source_channel(k % 4)]
                } else {
                    0u8
                },
        decreases len - i,
    {
        if i < whole {
            let base: usize = i - i % 4;
            let ch: usize = if i % 4 == 0 {
                2
            } else if i % 4 == 2 {
                0
            } else {
                i % 4
            };
            assert(base + 3 < whole) by {
                assert(whole % 4 == 0);
            }
            rgba.push(frame.data[base + ch]);
        } else {
            rgba.push(0u8);
        }
        i = i + 1;
    }
    rgba
}

/// Export pipeline errors.
#[derive(Debug)]
pub enum ExportError {
    Encoder(EncoderError),
    Io(String),
    NoSource,
    Cancelled,
}

/// Stage of an export.
#[derive(Debug, Clone, Copy, PartialEq, Eq, Structural)]
pub enum ExportState {
    Preparing,
    Rendering,
    Encoding,
    Finalizing,
    Completed,
    Failed,
}

/// Whether the export loop reports progress after frame `frame_idx` of
/// `total_frames`: every tenth frame, and the last one.
pub fn reports_progress(frame_idx: u64, total_frames: u64) -> (r: bool)
    ensures
        r == (frame_idx % 10 == 0 || frame_idx + 1 == total_frames),
{
    frame_idx % 10 == 0 || (total_frames > 0 && frame_idx == total_frames - 1)
}

} // verus!
