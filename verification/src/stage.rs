//! The segmentation stage: per-frame orchestration over buffers, mask and
//! color table.

use vstd::prelude::*;
use vstd::pervasive::VecAdditionalExecFns;
use crate::color::{color_bytes, ColorTable};
use crate::frame::{Buffer, BufferView, VideoFormat};
use crate::mask::ClassMask;
use crate::{FRAME_HEIGHT, FRAME_WIDTH, SegError};

verus! {

/// Lifecycle of the stage.  Construction fixes format and color table
/// (`Configured`); the first successful model load makes it `Ready`, and
/// from there it services frames indefinitely.  There is no further
/// transition.
#[derive(Clone, Copy, Debug, PartialEq, Eq, Structural)]
pub enum StageState {
    Configured,
    Ready,
}

/// The exact output buffer that processing owes for a source frame and a
/// class mask: the source's metadata over a plane of table colors, three
/// bytes per mask entry in mask order.
pub open spec fn colorized_frame(src: BufferView, m: Seq<u8>) -> BufferView {
    BufferView { width: src.width, height: src.height, pts: src.pts, data: color_bytes(m) }
}

/// The semantic-segmentation stage: the negotiated format, the fixed color
/// table, and the lifecycle state.  Format and table never change after
/// construction.
pub struct SemSeg {
    pub format: VideoFormat,
    pub colors: ColorTable,
    pub state: StageState,
}

impl SemSeg {
    /// The stage carries the one negotiated format and a well-formed table.
    pub open spec fn wf(&self) -> bool {
        &&& self.format.width == FRAME_WIDTH
        &&& self.format.height == FRAME_HEIGHT
        &&& self.colors.wf()
    }

    /// Whether the stage has seen its model load.
    pub open spec fn is_ready(&self) -> bool {
        self.state is Ready
    }
}

impl Default for SemSeg {
    /// A configured stage: fixed format, fixed color table, model not yet
    /// loaded.
    fn default() -> (s: SemSeg)
        ensures
            s.wf(),
            s.state is Configured,
    {
        SemSeg {
            format: VideoFormat::fixed(),
            colors: ColorTable::new(),
            state: StageState::Configured,
        }
    }
}

impl SemSeg {
    /// Records the one `Configured` to `Ready` transition, after the caller
    /// has loaded the model successfully.  Format and table are untouched.
    pub fn model_loaded(&mut self)
        ensures
            final(self).state is Ready,
            final(self).format == old(self).format,
            final(self).colors == old(self).colors,
    {
        self.state = StageState::Ready;
    }

    /// Processes one batch of buffers.
    ///
    /// Every input buffer past the first is passed through byte-identical to
    /// the matching output slot.  The first input buffer is deep-copied, its
    /// plane is overwritten with the table colors of `mask`, and the result
    /// is placed in output slot zero.  Output slots past the inputs keep
    /// their prior contents.
    ///
    /// With no input buffer, or fewer output slots than inputs, nothing is
    /// touched and the caller's contract violation is reported; a first
    /// buffer whose declared dimensions differ from the fixed format is
    /// rejected as a format mismatch.  On any error the output buffers are
    /// left exactly as they were: no partial frame is ever emitted.
    pub fn process(&self, inbuf: &Vec<Buffer>, outbuf: &mut Vec<Buffer>, mask: &ClassMask) -> (r:
        Result<(), SegError>)
        requires
            self.wf(),
            self.is_ready(),
            mask.wf(),
            inbuf@.len() > 0 ==> inbuf@[0].wf(),
        ensures
            r == Ok::<(), SegError>(()) <==> (0 < inbuf@.len() <= old(outbuf)@.len()
                && inbuf@[0]@.width == FRAME_WIDTH && inbuf@[0]@.height == FRAME_HEIGHT),
            (inbuf@.len() == 0 || old(outbuf)@.len() < inbuf@.len()) ==> r == Err::<
                (),
                SegError,
            >(SegError::BufferContractViolation),
            (0 < inbuf@.len() <= old(outbuf)@.len() && !(inbuf@[0]@.width == FRAME_WIDTH
                && inbuf@[0]@.height == FRAME_HEIGHT)) ==> r == Err::<(), SegError>(
                SegError::FormatMismatch,
            ),
            r matches Err(_) ==> final(outbuf)@ == old(outbuf)@,
            r matches Ok(_) ==> {
                &&& final(outbuf)@.len() == old(outbuf)@.len()
                &&& final(outbuf)@[0]@ == colorized_frame(inbuf@[0]@, mask@)
                &&& final(outbuf)@[0]@.data.len() == inbuf@[0]@.data.len()
                &&& forall|j: int|
                    1 <= j < inbuf@.len() ==> final(outbuf)@[j]@ == #[trigger] inbuf@[j]@
                &&& forall|j: int|
                    inbuf@.len() <= j < old(outbuf)@.len() ==> final(outbuf)@[j] == old(
                        outbuf,
                    )@[j]
            },
    {
        if inbuf.len() == 0 || outbuf.len() < inbuf.len() {
            return Err(SegError::BufferContractViolation);
        }
        if inbuf[0].width != FRAME_WIDTH || inbuf[0].height != FRAME_HEIGHT {
            return Err(SegError::FormatMismatch);
        }

        let mut i: usize = 1;
        while i < inbuf.len()
            invariant
                1 <= i <= inbuf@.len(),
                inbuf@.len() <= outbuf@.len(),
                outbuf@.len() == old(outbuf)@.len(),
                outbuf@[0] == old(outbuf)@[0],
                forall|j: int| 1 <= j < i ==> outbuf@[j]@ == #[trigger] inbuf@[j]@,
                forall|j: int|
                    inbuf@.len() <= j < outbuf@.len() ==> outbuf@[j] == old(outbuf)@[j],
            decreases inbuf@.len() - i,
        {
            outbuf.set(i, inbuf[i].duplicate());
            i = i + 1;
        }

        let mut depth = inbuf[0].duplicate();
        let rgb = self.colors.gather(&mask.ids);
        match depth.write_rgb(&rgb) {
            Ok(()) => {},
            Err(e) => {
                proof {
                    assert(false);
                }
                return Err(e);
            },
        }
        outbuf.set(0, depth);
        Ok(())
    }
}

/// One pad of the stage: its name and the only format it negotiates.
pub struct PadCaps {
    pub name: &'static str,
    pub format: VideoFormat,
}

/// The stage's connection points: one "rgb" input pad and one "depth"
/// output pad, both fixed to the negotiated format at any frame rate.
pub fn caps_def() -> (r: (Vec<PadCaps>, Vec<PadCaps>))
    ensures
        r.0@.len() == 1 && r.1@.len() == 1,
        r.0@[0].name@ == "rgb"@,
        r.1@[0].name@ == "depth"@,
        r.0@[0].format.width == FRAME_WIDTH && r.0@[0].format.height == FRAME_HEIGHT,
        r.1@[0].format.width == FRAME_WIDTH && r.1@[0].format.height == FRAME_HEIGHT,
{
    let in_caps = PadCaps { name: "rgb", format: VideoFormat::fixed() };
    let out_caps = PadCaps { name: "depth", format: VideoFormat::fixed() };
    (vec![in_caps], vec![out_caps])
}

/// Processing is a pure function of the source frame and the class mask:
/// two runs over the same frame with the same deterministic mask owe
/// byte-identical output buffers.
pub proof fn lemma_process_deterministic(
    src: BufferView,
    m: Seq<u8>,
    out1: BufferView,
    out2: BufferView,
)
    requires
        out1 == colorized_frame(src, m),
        out2 == colorized_frame(src, m),
    ensures
        out1 == out2,
{
}

} // verus!
