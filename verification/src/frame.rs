//! Video frames as the pipeline takes them.

use vstd::prelude::*;
use crate::error::InvalidInput;

verus! {

/// One video frame: an interleaved 8-bit RGB buffer with its geometry. The
/// buffer always holds `width * height` pixels of three bytes each.
#[derive(Debug)]
pub struct Frame {
    width: usize,
    height: usize,
    rgb: Vec<u8>,
}

impl Frame {
    #[verifier::type_invariant]
    spec fn well_formed(self) -> bool {
        self.rgb@.len() == self.width * self.height * 3
    }

    /// Number of columns.
    pub closed spec fn spec_width(&self) -> usize {
        self.width
    }

    /// Number of rows.
    pub closed spec fn spec_height(&self) -> usize {
        self.height
    }

    /// The interleaved RGB bytes, row by row.
    pub closed spec fn spec_rgb(&self) -> Seq<u8> {
        self.rgb@
    }

    /// Takes ownership of a buffer as a frame of the given geometry.
    ///
    /// Fails with `FrameSize` exactly when the buffer does not hold
    /// `width * height * 3` bytes.
    pub fn new(width: usize, height: usize, rgb: Vec<u8>) -> (res: Result<Frame, InvalidInput>)
        ensures
            res is Ok <==> rgb@.len() == width * height * 3,
            res matches Ok(frame) ==> {
                &&& frame.spec_width() == width
                &&& frame.spec_height() == height
                &&& frame.spec_rgb() == rgb@
            },
            res matches Err(e) ==> e == InvalidInput::FrameSize,
    {
        let len: usize = rgb.len();
        let pixels: usize = match width.checked_mul(height) {
            Some(pixels) => pixels,
            None => {
                assert(width * height * 3 > len) by (nonlinear_arith)
                    requires
                        width * height > usize::MAX,
                        len <= usize::MAX,
                ;
                return Err(InvalidInput::FrameSize);
            },
        };
        match pixels.checked_mul(3) {
            Some(bytes) => {
                if bytes == len {
                    Ok(Frame { width, height, rgb })
                } else {
                    Err(InvalidInput::FrameSize)
                }
            },
            None => Err(InvalidInput::FrameSize),
        }
    }

    /// Number of columns.
    #[verifier::when_used_as_spec(spec_width)]
    pub fn width(&self) -> (width: usize)
        ensures
            width == self.spec_width(),
    {
        self.width
    }

    /// Number of rows.
    #[verifier::when_used_as_spec(spec_height)]
    pub fn height(&self) -> (height: usize)
        ensures
            height == self.spec_height(),
    {
        self.height
    }

    /// The interleaved RGB bytes, row by row: `width * height * 3` of them.
    pub fn rgb(&self) -> (rgb: &[u8])
        ensures
            rgb@ == self.spec_rgb(),
            rgb@.len() == self.spec_width() * self.spec_height() * 3,
    {
        proof {
            use_type_invariant(self);
        }
        self.rgb.as_slice()
    }
}

} // verus!
