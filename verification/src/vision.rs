//! Vegetation masks: the hybrid scorer and the choice between it and the
//! plain excess-green threshold.

use vstd::prelude::*;
use crate::error::InvalidInput;
use crate::exg::exg_is_vegetation;
use crate::exg::exg_mask;
use crate::exg::exg_mask_spec;
use crate::exg::exg_score;
use crate::exg::mask_byte;
use crate::exg::mask_into_error;
use crate::frame::Frame;
use crate::units::PPM;

verus! {

/// Weights of the hybrid score, in millionths.
#[derive(Debug, Clone, Copy, PartialEq, Eq, Structural)]
pub struct Weights {
    /// Weight of the excess-green term.
    pub exg: i32,
    /// Weight of the green-share term.
    pub green_ratio: i32,
    /// Weight of the chroma term.
    pub chroma: i32,
    /// Constant added to the score.
    pub bias: i32,
}

/// Vegetation detector that weighs excess green against the share of
/// green in the pixel's brightness and against its chroma, which keeps
/// grey and brown backgrounds out.
#[derive(Debug, Clone, Copy)]
pub struct PlantVision {
    /// Excess green at which the excess-green term changes sign.
    pub exg_threshold: i16,
    /// Share of green, in millionths, at which the green-share term
    /// changes sign.
    pub green_ratio_floor: i32,
    /// Chroma, in millionths of full scale, at which the chroma term
    /// changes sign.
    pub chroma_floor: i32,
    /// Weights of the three terms, and the bias.
    pub weights: Weights,
}

/// Largest of the three channels.
pub open spec fn max_channel(r: u8, g: u8, b: u8) -> int {
    if r >= g && r >= b {
        r as int
    } else if g >= b {
        g as int
    } else {
        b as int
    }
}

/// Smallest of the three channels.
pub open spec fn min_channel(r: u8, g: u8, b: u8) -> int {
    if r <= g && r <= b {
        r as int
    } else if g <= b {
        g as int
    } else {
        b as int
    }
}

impl PlantVision {
    /// The thresholds and weights used where none are given.
    pub open spec fn standard() -> PlantVision {
        PlantVision {
            exg_threshold: 20,
            green_ratio_floor: 360_000,
            chroma_floor: 80_000,
            weights: Weights { exg: 500_000, green_ratio: 350_000, chroma: 150_000, bias: 0 },
        }
    }

    /// The hybrid score of a pixel, scaled by the positive factor
    /// `255 * 10^12 * (r + g + b + 1)` so that it is an integer. The score
    /// itself is
    /// `w_exg * (exg - t) / 255 + w_ratio * (g / (r + g + b + 1) - ratio_floor)
    ///  + w_chroma * ((max - min) / 255 - chroma_floor) + bias`.
    pub open spec fn score(self, r: u8, g: u8, b: u8) -> int {
        let sum = r as int + g as int + b as int + 1;
        let chroma = max_channel(r, g, b) - min_channel(r, g, b);
        let w = self.weights;
        w.exg * (exg_score(r, g, b) - self.exg_threshold) * PPM * sum + w.green_ratio * 255 * (g
            * PPM - self.green_ratio_floor * sum) + w.chroma * sum * (chroma * PPM - 255
            * self.chroma_floor) + w.bias * PPM * 255 * sum
    }

    /// Whether the pixel stored at position `i` of an interleaved RGB
    /// buffer is vegetation: its score is positive.
    pub open spec fn pixel(self, rgb: Seq<u8>, i: int) -> bool {
        self.score(rgb[3 * i], rgb[3 * i + 1], rgb[3 * i + 2]) > 0
    }

    /// The hybrid mask of a whole buffer: one entry per pixel, each decided
    /// by that pixel's own three bytes.
    pub open spec fn mask_spec(self, rgb: Seq<u8>) -> Seq<bool> {
        Seq::new((rgb.len() / 3) as nat, |i: int| self.pixel(rgb, i))
    }

    /// A detector with the given thresholds and the weights
    /// `(exg, green_ratio, chroma, bias)`.
    pub fn new(
        exg_threshold: i16,
        green_ratio_floor: i32,
        chroma_floor: i32,
        weights: (i32, i32, i32, i32),
    ) -> (vision: Self)
        ensures
            vision.exg_threshold == exg_threshold,
            vision.green_ratio_floor == green_ratio_floor,
            vision.chroma_floor == chroma_floor,
            vision.weights == (Weights {
                exg: weights.0,
                green_ratio: weights.1,
                chroma: weights.2,
                bias: weights.3,
            }),
    {
        PlantVision {
            exg_threshold,
            green_ratio_floor,
            chroma_floor,
            weights: Weights {
                exg: weights.0,
                green_ratio: weights.1,
                chroma: weights.2,
                bias: weights.3,
            },
        }
    }

    /// Scores one pixel and tells whether it is vegetation.
    pub fn is_vegetation(&self, r: u8, g: u8, b: u8) -> (veg: bool)
        ensures
            veg == (self.score(r, g, b) > 0),
    {
        let ppm: i128 = PPM as i128;
        let sum: i128 = r as i128 + g as i128 + b as i128 + 1;
        let maxc: u8 = if r >= g && r >= b {
            r
        } else if g >= b {
            g
        } else {
            b
        };
        let minc: u8 = if r <= g && r <= b {
            r
        } else if g <= b {
            g
        } else {
            b
        };
        let chroma: i128 = maxc as i128 - minc as i128;
        let exg: i128 = 2 * (g as i128) - r as i128 - b as i128;
        let w_exg: i128 = self.weights.exg as i128;
        let w_ratio: i128 = self.weights.green_ratio as i128;
        let w_chroma: i128 = self.weights.chroma as i128;
        let w_bias: i128 = self.weights.bias as i128;
        let ghost big: int = 0x8000_0000;

        let over: i128 = exg - self.exg_threshold as i128;
        proof {
            lemma_product_bound(w_exg as int, over as int, big, 33_278);
            lemma_product_bound(w_exg * over, ppm as int, big * 33_278, 1_000_000);
            lemma_product_bound(w_exg * over * ppm, sum as int, big * 33_278 * 1_000_000, 766);
        }
        let exg_term: i128 = w_exg * over * ppm * sum;

        proof {
            lemma_product_bound(self.green_ratio_floor as int, sum as int, big, 766);
            lemma_product_bound(w_ratio as int, 255, big, 255);
            lemma_product_bound(
                w_ratio * 255,
                g * ppm - self.green_ratio_floor * sum,
                big * 255,
                255_000_000 + big * 766,
            );
        }
        let ratio_term: i128 = w_ratio * 255 * (g as i128 * ppm - self.green_ratio_floor as i128
            * sum);

        proof {
            lemma_product_bound(w_chroma as int, sum as int, big, 766);
            lemma_product_bound(
                w_chroma * sum,
                chroma * ppm - 255 * self.chroma_floor,
                big * 766,
                255_000_000 + 255 * big,
            );
        }
        let chroma_term: i128 = w_chroma * sum * (chroma * ppm - 255 * self.chroma_floor as i128);

        proof {
            lemma_product_bound(w_bias as int, ppm as int, big, 1_000_000);
            lemma_product_bound(w_bias * ppm, 255, big * 1_000_000, 255);
            lemma_product_bound(w_bias * ppm * 255, sum as int, big * 1_000_000 * 255, 766);
        }
        let bias_term: i128 = w_bias * ppm * 255 * sum;

        exg_term + ratio_term + chroma_term + bias_term > 0
    }

    /// Computes the hybrid mask of an interleaved RGB image.
    ///
    /// Fails with `RgbLength` exactly when the buffer does not hold whole
    /// pixels.
    pub fn detect(&self, rgb: &[u8]) -> (res: Result<Vec<bool>, InvalidInput>)
        ensures
            res is Ok <==> rgb@.len() % 3 == 0,
            res matches Ok(mask) ==> mask@ == self.mask_spec(rgb@),
            res matches Err(e) ==> e == InvalidInput::RgbLength,
    {
        let len: usize = rgb.len();
        if len % 3 != 0 {
            return Err(InvalidInput::RgbLength);
        }
        let pixels: usize = len / 3;
        let mut mask: Vec<bool> = Vec::with_capacity(pixels);
        let mut i: usize = 0;
        while i < pixels
            invariant
                rgb@.len() == len,
                len == 3 * pixels,
                i <= pixels,
                mask@.len() == i,
                forall|k: int| 0 <= k < i ==> mask@[k] == self.pixel(rgb@, k),
            decreases pixels - i,
        {
            let veg = self.is_vegetation(rgb[3 * i], rgb[3 * i + 1], rgb[3 * i + 2]);
            mask.push(veg);
            i += 1;
        }
        assert(mask@ =~= self.mask_spec(rgb@));
        Ok(mask)
    }
}

impl Default for PlantVision {
    fn default() -> (vision: Self)
        ensures
            vision == PlantVision::standard(),
    {
        PlantVision {
            exg_threshold: 20,
            green_ratio_floor: 360_000,
            chroma_floor: 80_000,
            weights: Weights { exg: 500_000, green_ratio: 350_000, chroma: 150_000, bias: 0 },
        }
    }
}

/// Each entry of the hybrid mask depends on its own pixel only: two pixels
/// with the same three bytes get the same entry under the same detector.
pub proof fn law_hybrid_entry_is_local(
    vision: PlantVision,
    a: Seq<u8>,
    i: int,
    b: Seq<u8>,
    j: int,
)
    requires
        0 <= i < a.len() / 3,
        0 <= j < b.len() / 3,
        a[3 * i] == b[3 * j],
        a[3 * i + 1] == b[3 * j + 1],
        a[3 * i + 2] == b[3 * j + 2],
    ensures
        vision.mask_spec(a)[i] == vision.mask_spec(b)[j],
        vision.mask_spec(a).len() == a.len() / 3,
{
}

/// A product of two bounded integers is bounded by the product of the
/// bounds.
proof fn lemma_product_bound(a: int, b: int, a_max: int, b_max: int)
    requires
        -a_max <= a <= a_max,
        -b_max <= b <= b_max,
    ensures
        -(a_max * b_max) <= a * b <= a_max * b_max,
{
    assert(-(a_max * b_max) <= a * b <= a_max * b_max) by (nonlinear_arith)
        requires
            -a_max <= a <= a_max,
            -b_max <= b <= b_max,
    ;
}

/// The way pixels are classified: one of a small, fixed set of strategies.
#[derive(Debug, Clone, Copy)]
pub enum VegetationMask {
    /// Excess green against a threshold: cheap, for even lighting.
    Threshold(i16),
    /// The hybrid scorer: for noisy outdoor lighting.
    Hybrid(PlantVision),
}

impl VegetationMask {
    /// The mask that the strategy gives for a whole buffer.
    pub open spec fn mask_spec(self, rgb: Seq<u8>) -> Seq<bool> {
        match self {
            VegetationMask::Threshold(threshold) => exg_mask_spec(rgb, threshold),
            VegetationMask::Hybrid(vision) => vision.mask_spec(rgb),
        }
    }

    /// Classifies one pixel.
    pub fn is_vegetation(&self, r: u8, g: u8, b: u8) -> (veg: bool)
        ensures
            veg == match *self {
                VegetationMask::Threshold(threshold) => exg_score(r, g, b) >= threshold,
                VegetationMask::Hybrid(vision) => vision.score(r, g, b) > 0,
            },
    {
        match self {
            VegetationMask::Threshold(threshold) => exg_is_vegetation(r, g, b, *threshold),
            VegetationMask::Hybrid(vision) => vision.is_vegetation(r, g, b),
        }
    }

    /// Writes the mask of an interleaved RGB image into a byte mask
    /// supplied by the caller, one byte per pixel: 1 for vegetation, 0 for
    /// none.
    ///
    /// Fails exactly on the inputs that `mask_into_error` names, and then
    /// leaves the mask as it was.
    pub fn mask_into(&self, rgb: &[u8], mask: &mut [u8]) -> (res: Result<(), InvalidInput>)
        ensures
            final(mask)@.len() == old(mask)@.len(),
            match res {
                Ok(_) => {
                    &&& mask_into_error(rgb@.len() as int, old(mask)@.len() as int) is None
                    &&& forall|i: int|
                        0 <= i < final(mask)@.len() ==> final(mask)@[i] == mask_byte(
                            self.mask_spec(rgb@)[i],
                        )
                },
                Err(e) => {
                    &&& mask_into_error(rgb@.len() as int, old(mask)@.len() as int) == Some(e)
                    &&& final(mask)@ == old(mask)@
                },
            },
    {
        let len: usize = rgb.len();
        if len % 3 != 0 {
            return Err(InvalidInput::RgbLength);
        }
        let pixels: usize = len / 3;
        if mask.len() != pixels {
            return Err(InvalidInput::MaskLength);
        }
        let mut i: usize = 0;
        while i < pixels
            invariant
                rgb@.len() == len,
                len == 3 * pixels,
                i <= pixels,
                mask@.len() == pixels,
                forall|k: int| 0 <= k < i ==> mask@[k] == mask_byte(self.mask_spec(rgb@)[k]),
            decreases pixels - i,
        {
            let veg = self.is_vegetation(rgb[3 * i], rgb[3 * i + 1], rgb[3 * i + 2]);
            mask[i] = if veg {
                1
            } else {
                0
            };
            i += 1;
        }
        Ok(())
    }

    /// Computes the mask of a frame: `width * height` entries, row by row.
    pub fn classify(&self, frame: &Frame) -> (mask: Vec<bool>)
        ensures
            mask@ == self.mask_spec(frame.spec_rgb()),
            mask@.len() == frame.spec_width() * frame.spec_height(),
    {
        let rgb = frame.rgb();
        assert(rgb@.len() % 3 == 0 && rgb@.len() / 3 == frame.spec_width() * frame.spec_height())
            by (nonlinear_arith)
            requires
                rgb@.len() == frame.spec_width() * frame.spec_height() * 3,
        ;
        match self.mask(rgb) {
            Ok(mask) => mask,
            Err(_) => Vec::new(),
        }
    }

    /// Computes the mask of an interleaved RGB image: one entry per pixel.
    ///
    /// Fails with `RgbLength` exactly when the buffer does not hold whole
    /// pixels.
    pub fn mask(&self, rgb: &[u8]) -> (res: Result<Vec<bool>, InvalidInput>)
        ensures
            res is Ok <==> rgb@.len() % 3 == 0,
            res matches Ok(mask) ==> mask@ == self.mask_spec(rgb@) && mask@.len() == rgb@.len()
                / 3,
            res matches Err(e) ==> e == InvalidInput::RgbLength,
    {
        match self {
            VegetationMask::Threshold(threshold) => exg_mask(rgb, *threshold),
            VegetationMask::Hybrid(vision) => vision.detect(rgb),
        }
    }
}

} // verus!
