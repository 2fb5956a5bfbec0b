//! Reasons for which an input is turned down.

use vstd::prelude::*;

verus! {

/// An input whose geometry cannot be worked on. Nothing is corrected
/// silently: the call fails and leaves every state as it was.
#[derive(Debug, Clone, Copy, PartialEq, Eq, Structural)]
pub enum InvalidInput {
    /// The RGB buffer does not hold whole pixels: its length is not a
    /// multiple of three.
    RgbLength,
    /// The RGB buffer does not hold `width * height` pixels.
    FrameSize,
    /// A mask does not hold one entry per pixel.
    MaskLength,
    /// The number of lanes is zero.
    NoLanes,
    /// The frame has fewer columns than there are lanes.
    TooManyLanes,
}

} // verus!
