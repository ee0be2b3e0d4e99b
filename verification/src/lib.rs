//! A verified semantic-segmentation stage for a fixed-format video pipeline.
//!
//! The stage consumes interleaved 8-bit RGB frames of a fixed 640 x 192
//! format, obtains a per-pixel class mask for the first frame of each batch,
//! paints every pixel with the fixed color of its class, and passes every
//! further buffer through unchanged.  The model forward pass itself runs on
//! an accelerator outside this crate; the library receives its result as a
//! [`mask::ClassMask`] and is verified for every value of it.

use vstd::prelude::*;

pub mod color;
pub mod frame;
pub mod mask;
pub mod stage;

verus! {

/// Width in pixels of every frame the stage accepts.
pub const FRAME_WIDTH: u32 = 640;

/// Height in pixels of every frame the stage accepts.
pub const FRAME_HEIGHT: u32 = 192;

/// Pixels in one frame.
pub const FRAME_PIXELS: usize = 640 * 192;

/// Bytes in one interleaved three-channel pixel plane.
pub const FRAME_BYTES: usize = 640 * 192 * 3;

/// Classes the segmentation model distinguishes.
pub const NUM_CLASSES: usize = 19;

/// Everything that can go wrong in this stage.
#[derive(Clone, Copy, Debug, PartialEq, Eq, Structural)]
pub enum SegError {
    /// A buffer's declared dimensions differ from the fixed video format.
    FormatMismatch,
    /// A pixel write whose source length is not the plane's byte count.
    SizeMismatch,
    /// The model artifact could not be loaded; fatal at startup.
    ModelLoadError,
    /// The forward computation failed or returned a mask of the wrong shape.
    InferenceError,
    /// The caller supplied fewer output slots than input buffers.
    BufferContractViolation,
}

} // verus!
