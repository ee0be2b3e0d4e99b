//! Video buffers, the fixed format, and checked views over pixel planes.

use vstd::prelude::*;
use crate::{FRAME_BYTES, FRAME_HEIGHT, FRAME_PIXELS, FRAME_WIDTH, SegError};

verus! {

/// The negotiated video configuration: interleaved three-channel 8-bit
/// pixels at a fixed width and height, any frame rate.
#[derive(Clone, Copy, Debug, PartialEq, Eq, Structural)]
pub struct VideoFormat {
    pub width: u32,
    pub height: u32,
}

impl VideoFormat {
    /// The one format this stage negotiates.
    pub fn fixed() -> (f: VideoFormat)
        ensures
            f.width == FRAME_WIDTH,
            f.height == FRAME_HEIGHT,
    {
        VideoFormat { width: FRAME_WIDTH, height: FRAME_HEIGHT }
    }
}

/// What one buffer is worth in contracts: its declared dimensions, its
/// presentation timestamp, and the bytes of its pixel plane.
pub ghost struct BufferView {
    pub width: u32,
    pub height: u32,
    pub pts: u64,
    pub data: Seq<u8>,
}

/// One video frame: an interleaved three-channel 8-bit pixel plane plus
/// timing metadata, exclusively owned by whoever holds it.
pub struct Buffer {
    pub width: u32,
    pub height: u32,
    /// Presentation timestamp, in the pipeline's clock units.
    pub pts: u64,
    pub data: Vec<u8>,
}

impl View for Buffer {
    type V = BufferView;

    open spec fn view(&self) -> BufferView {
        BufferView { width: self.width, height: self.height, pts: self.pts, data: self.data@ }
    }
}

/// An exact copy of a byte plane in freshly allocated storage.
fn copy_bytes(src: &Vec<u8>) -> (r: Vec<u8>)
    ensures
        r@ == src@,
{
    let mut r: Vec<u8> = Vec::with_capacity(src.len());
    let mut i: usize = 0;
    while i < src.len()
        invariant
            i <= src@.len(),
            r@.len() == i,
            forall|j: int| 0 <= j < i ==> r@[j] == src@[j],
        decreases src@.len() - i,
    {
        r.push(src[i]);
        i = i + 1;
    }
    proof {
        assert(r@ =~= src@);
    }
    r
}

impl Buffer {
    /// The plane holds exactly width x height interleaved three-byte pixels.
    pub open spec fn wf(&self) -> bool {
        self.data@.len() == (self.width as int) * (self.height as int) * 3
    }

    /// A structural deep copy: same metadata, same bytes, freshly allocated
    /// pixel storage that never aliases the original's.
    pub fn duplicate(&self) -> (r: Buffer)
        ensures
            r@ == self@,
    {
        Buffer {
            width: self.width,
            height: self.height,
            pts: self.pts,
            data: copy_bytes(&self.data),
        }
    }

    /// Checked bulk write: replaces the whole pixel plane with `rgb`, after
    /// checking that the source holds exactly the plane's byte count.  On a
    /// length mismatch nothing is written and the buffer is unchanged.
    pub fn write_rgb(&mut self, rgb: &Vec<u8>) -> (r: Result<(), SegError>)
        ensures
            r == Ok::<(), SegError>(()) <==> rgb@.len() == old(self)@.data.len(),
            r matches Err(e) ==> e == SegError::SizeMismatch && final(self)@ == old(self)@,
            r matches Ok(_) ==> final(self)@ == (BufferView {
                width: old(self)@.width,
                height: old(self)@.height,
                pts: old(self)@.pts,
                data: rgb@,
            }),
    {
        if rgb.len() != self.data.len() {
            return Err(SegError::SizeMismatch);
        }
        self.data = copy_bytes(rgb);
        Ok(())
    }
}

/// Position of channel `c` of pixel `p` in a channel-first plane.
pub open spec fn chw_pos(c: int, p: int) -> int {
    c * FRAME_PIXELS + p
}

/// Position of channel `c` of pixel `p` in the interleaved plane.
pub open spec fn rgb_pos(p: int, c: int) -> int {
    3 * p + c
}

/// A read-only, format-checked view of one buffer's pixel plane.  Its
/// lifetime is nested inside the buffer's, and every access it offers stays
/// inside the plane.
pub struct FrameView<'a> {
    pub plane: &'a Vec<u8>,
    pub width: u32,
    pub height: u32,
}

impl<'a> FrameView<'a> {
    /// The bytes the view ranges over.
    pub open spec fn plane_view(&self) -> Seq<u8> {
        self.plane@
    }

    /// The view covers exactly its declared dimensions.
    pub open spec fn wf(&self) -> bool {
        self.plane_view().len() == (self.width as int) * (self.height as int) * 3
    }

    /// A readable view over a buffer's plane; rejected with `FormatMismatch`
    /// when the buffer's declared dimensions differ from the format.
    pub fn from_readable_buffer(buf: &'a Buffer, format: &VideoFormat) -> (r: Result<
        FrameView<'a>,
        SegError,
    >)
        requires
            buf.wf(),
        ensures
            r matches Ok(_) <==> buf@.width == format.width && buf@.height == format.height,
            r matches Ok(v) ==> v.wf() && v.plane_view() == buf@.data && v.width == buf@.width
                && v.height == buf@.height,
            r matches Err(e) ==> e == SegError::FormatMismatch,
    {
        if buf.width != format.width || buf.height != format.height {
            return Err(SegError::FormatMismatch);
        }
        Ok(FrameView { plane: &buf.data, width: buf.width, height: buf.height })
    }

    /// One byte of the plane, bounds-checked by contract.
    pub fn byte_at(&self, p: usize, c: usize) -> (b: u8)
        requires
            self.wf(),
            rgb_pos(p as int, c as int) < self.plane_view().len(),
        ensures
            b == self.plane_view()[rgb_pos(p as int, c as int)],
    {
        let n = self.plane.len();
        assert(rgb_pos(p as int, c as int) < n);
        self.plane[3 * p + c]
    }

    /// The channel-first reordering of a fixed-format plane: the byte of
    /// channel `c` at pixel `p` moves from the interleaved position
    /// `rgb_pos(p, c)` to `chw_pos(c, p)`.  Pixel order is preserved exactly;
    /// the scale to floats in [0, 1] is the accelerator's own step and
    /// happens outside this crate, after this reordering.
    pub fn to_chw_bytes(&self) -> (out: Vec<u8>)
        requires
            self.wf(),
            self.width == FRAME_WIDTH,
            self.height == FRAME_HEIGHT,
        ensures
            out@.len() == FRAME_BYTES,
            forall|c: int, p: int|
                0 <= c < 3 && 0 <= p < FRAME_PIXELS ==> out@[#[trigger] chw_pos(c, p)]
                    == self.plane_view()[rgb_pos(p, c)],
    {
        let mut out: Vec<u8> = Vec::with_capacity(FRAME_BYTES);
        let mut c: usize = 0;
        while c < 3
            invariant
                self.wf(),
                self.width == FRAME_WIDTH,
                self.height == FRAME_HEIGHT,
                c <= 3,
                out@.len() == c * FRAME_PIXELS,
                forall|cc: int, pp: int|
                    0 <= cc < c && 0 <= pp < FRAME_PIXELS ==> out@[#[trigger] chw_pos(cc, pp)]
                        == self.plane_view()[rgb_pos(pp, cc)],
            decreases 3 - c,
        {
            let mut p: usize = 0;
            while p < FRAME_PIXELS
                invariant
                    self.wf(),
                    self.width == FRAME_WIDTH,
                    self.height == FRAME_HEIGHT,
                    c < 3,
                    p <= FRAME_PIXELS,
                    out@.len() == c * FRAME_PIXELS + p,
                    forall|cc: int, pp: int|
                        0 <= cc <= c && 0 <= pp < FRAME_PIXELS && (cc < c || pp < p)
                            ==> out@[#[trigger] chw_pos(cc, pp)]
                            == self.plane_view()[rgb_pos(pp, cc)],
                decreases FRAME_PIXELS - p,
            {
                out.push(self.plane[3 * p + c]);
                proof {
                    assert(out@[chw_pos(c as int, p as int)]
                        == self.plane_view()[rgb_pos(p as int, c as int)]);
                    assert forall|cc: int, pp: int|
                        0 <= cc <= c && 0 <= pp < FRAME_PIXELS && (cc < c || pp < p + 1)
                            implies out@[#[trigger] chw_pos(cc, pp)]
                            == self.plane_view()[rgb_pos(pp, cc)] by {
                        if cc < c || pp < p {
                            assert(chw_pos(cc, pp) < c * FRAME_PIXELS + p);
                        }
                    }
                }
                p = p + 1;
            }
            proof {
                assert((c as int + 1) * FRAME_PIXELS == c as int * FRAME_PIXELS + FRAME_PIXELS)
                    by (nonlinear_arith);
            }
            c = c + 1;
        }
        out
    }
}

} // verus!
