//! The per-pixel class mask one inference produces for one frame.

use vstd::prelude::*;
use crate::{FRAME_PIXELS, SegError};

verus! {

/// Per-pixel class ids for one frame, row-major from the top-left pixel,
/// one entry per pixel of the fixed format.
pub struct ClassMask {
    pub ids: Vec<u8>,
}

impl View for ClassMask {
    type V = Seq<u8>;

    open spec fn view(&self) -> Seq<u8> {
        self.ids@
    }
}

impl ClassMask {
    /// The mask covers the fixed frame exactly.
    pub open spec fn wf(&self) -> bool {
        self@.len() == FRAME_PIXELS
    }

    /// Accepts a flat row-major id grid of exactly one frame's pixel count;
    /// any other shape is the mark of a failed forward computation and is
    /// rejected as such.
    pub fn from_ids(ids: Vec<u8>) -> (r: Result<ClassMask, SegError>)
        ensures
            r matches Ok(m) ==> m.wf() && m@ == ids@,
            r matches Ok(_) <==> ids@.len() == FRAME_PIXELS,
            r matches Err(e) ==> e == SegError::InferenceError,
    {
        if ids.len() == FRAME_PIXELS {
            Ok(ClassMask { ids })
        } else {
            Err(SegError::InferenceError)
        }
    }
}

} // verus!
