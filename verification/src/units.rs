//! Fixed-point units shared by the whole crate.

use vstd::prelude::*;

verus! {

/// The integer that stands for 1.0: fractions are counted in millionths.
pub const PPM: u32 = 1_000_000;

/// Number of spray lanes driven by the timing controller and the actuator.
pub const LANES: usize = 4;

} // verus!
