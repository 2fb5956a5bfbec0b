//! Choice of the detection algorithm and geometry of the detections. The
//! image processing itself is done by a computer-vision backend outside
//! this library.

use vstd::prelude::*;
use crate::text::same_text;

verus! {

/// The detection algorithms that the backend offers.
#[derive(Debug, Clone, Copy, PartialEq, Eq, Structural)]
pub enum Algorithm {
    /// Excess green.
    Exg,
    /// Excess green minus excess red.
    Exgr,
    /// Maximum of green against red and blue.
    Maxg,
    /// Normalised excess green.
    Nexg,
    /// Green normalised difference vegetation index.
    Gndvi,
    /// Excess green and HSV thresholds together.
    Exhsv,
    /// HSV thresholds.
    Hsv,
}

/// The algorithm that goes by `name`, if there is one. Names are lower
/// case.
pub open spec fn algorithm_named(name: Seq<char>) -> Option<Algorithm> {
    if name == "exg"@ {
        Some(Algorithm::Exg)
    } else if name == "exgr"@ {
        Some(Algorithm::Exgr)
    } else if name == "maxg"@ {
        Some(Algorithm::Maxg)
    } else if name == "nexg"@ {
        Some(Algorithm::Nexg)
    } else if name == "gndvi"@ {
        Some(Algorithm::Gndvi)
    } else if name == "exhsv"@ {
        Some(Algorithm::Exhsv)
    } else if name == "hsv"@ {
        Some(Algorithm::Hsv)
    } else {
        None
    }
}

impl Algorithm {
    /// The algorithm takes thresholds as parameters and hands back a mask
    /// that is already binary; the others hand back an index image that
    /// still has to be thresholded.
    pub open spec fn is_parametric(self) -> bool {
        self == Algorithm::Exhsv || self == Algorithm::Hsv
    }

    /// Finds the algorithm that goes by `name`. An unknown name gives
    /// nothing.
    pub fn parse(name: &str) -> (res: Option<Algorithm>)
        ensures
            res == algorithm_named(name@),
    {
        if same_text(name, "exg") {
            Some(Algorithm::Exg)
        } else if same_text(name, "exgr") {
            Some(Algorithm::Exgr)
        } else if same_text(name, "maxg") {
            Some(Algorithm::Maxg)
        } else if same_text(name, "nexg") {
            Some(Algorithm::Nexg)
        } else if same_text(name, "gndvi") {
            Some(Algorithm::Gndvi)
        } else if same_text(name, "exhsv") {
            Some(Algorithm::Exhsv)
        } else if same_text(name, "hsv") {
            Some(Algorithm::Hsv)
        } else {
            None
        }
    }

    /// Tells whether the algorithm hands back a mask that is already
    /// binary.
    pub fn takes_parameters(&self) -> (yes: bool)
        ensures
            yes == self.is_parametric(),
    {
        match self {
            Algorithm::Exhsv => true,
            Algorithm::Hsv => true,
            _ => false,
        }
    }
}

/// Why a setup cannot be run.
#[derive(Debug, Clone, Copy, PartialEq, Eq, Structural)]
pub enum SetupError {
    /// The camera resolution has a zero side.
    ZeroResolution,
    /// No detection algorithm goes by the given name.
    UnsupportedAlgorithm,
}

/// Checks a setup before any frame is taken: the camera resolution must
/// not have a zero side and the algorithm must be known. The resolution is
/// looked at first.
pub fn check_setup(width: u32, height: u32, algorithm: &str) -> (res: Result<Algorithm, SetupError>)
    ensures
        res == if width == 0 || height == 0 {
            Err::<Algorithm, SetupError>(SetupError::ZeroResolution)
        } else {
            match algorithm_named(algorithm@) {
                Some(found) => Ok(found),
                None => Err(SetupError::UnsupportedAlgorithm),
            }
        },
{
    if width == 0 || height == 0 {
        return Err(SetupError::ZeroResolution);
    }
    match Algorithm::parse(algorithm) {
        Some(found) => Ok(found),
        None => Err(SetupError::UnsupportedAlgorithm),
    }
}

/// An upright rectangle in image coordinates.
#[derive(Debug, Clone, Copy, PartialEq, Eq, Structural)]
pub struct Rect {
    /// Left edge.
    pub x: i32,
    /// Top edge.
    pub y: i32,
    /// Width, not negative for a rectangle that a backend found.
    pub width: i32,
    /// Height, not negative for a rectangle that a backend found.
    pub height: i32,
}

impl Rect {
    /// The rectangle has a centre that can be written down: its sides are
    /// not negative and the centre's coordinates fit.
    pub open spec fn has_centre(self) -> bool {
        &&& self.width >= 0
        &&& self.height >= 0
        &&& self.x + self.width / 2 <= i32::MAX
        &&& self.y + self.height / 2 <= i32::MAX
    }

    /// The rectangle as `[x, y, width, height]`.
    pub fn bounding_box(&self) -> (bbox: [i32; 4])
        ensures
            bbox@ == seq![self.x, self.y, self.width, self.height],
    {
        let bbox = [self.x, self.y, self.width, self.height];
        assert(bbox@ =~= seq![self.x, self.y, self.width, self.height]);
        bbox
    }

    /// The rectangle's centre, `[x + width / 2, y + height / 2]`, for a
    /// rectangle that `has_centre`.
    pub fn centre(&self) -> (res: Option<[i32; 2]>)
        ensures
            res is Some <==> self.has_centre(),
            res matches Some(c) ==> c@ == seq![
                (self.x + self.width / 2) as i32,
                (self.y + self.height / 2) as i32,
            ],
    {
        if self.width < 0 || self.height < 0 {
            return None;
        }
        let cx: i64 = self.x as i64 + (self.width / 2) as i64;
        let cy: i64 = self.y as i64 + (self.height / 2) as i64;
        if cx > i32::MAX as i64 || cy > i32::MAX as i64 {
            return None;
        }
        let c = [cx as i32, cy as i32];
        assert(c@ =~= seq![
            (self.x + self.width / 2) as i32,
            (self.y + self.height / 2) as i32,
        ]);
        Some(c)
    }
}

} // verus!
