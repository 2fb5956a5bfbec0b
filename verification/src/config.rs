//! Configuration of the spraying pipeline.

use vstd::prelude::*;
use crate::lanes::LaneRatio;
use crate::units::PPM;

verus! {

/// Settings of the pipeline, fixed once it is built. Fractions are in
/// millionths.
#[derive(Debug, Clone, Copy, PartialEq, Eq, Structural)]
pub struct SprayCfg {
    /// Excess green that a pixel must reach to count as vegetation.
    pub thr: i16,
    /// Fraction of the image height, from the bottom, looked at for lane
    /// reduction.
    pub bottom_frac: u32,
    /// Green ratio around which a lane is triggered.
    pub min_ratio: u32,
    /// Time in ms that a valve stays open once triggered.
    pub fire_ms: u32,
    /// Time in ms that a valve stays closed after its fire window.
    pub holdoff_ms: u32,
    /// Fraction by which the trigger threshold is moved off `min_ratio`,
    /// down for an armed lane and up for a disarmed one.
    pub hysteresis: u32,
}

impl SprayCfg {
    /// The settings used where none are given.
    pub open spec fn standard() -> SprayCfg {
        SprayCfg {
            thr: 16,
            bottom_frac: 300_000,
            min_ratio: 8_000,
            fire_ms: 60,
            holdoff_ms: 200,
            hysteresis: 500_000,
        }
    }

    /// Trigger threshold of an idle lane, in units of 10^-12:
    /// `min_ratio * (1 - hysteresis)` for an armed lane and
    /// `min_ratio * (1 + hysteresis)` for a disarmed one.
    pub open spec fn threshold(self, armed: bool) -> int {
        if armed {
            self.min_ratio * (PPM - self.hysteresis)
        } else {
            self.min_ratio * (PPM + self.hysteresis)
        }
    }

    /// Whether a ratio triggers an idle lane: it reaches the lane's
    /// threshold, and a tie triggers.
    pub open spec fn triggers(self, ratio: LaneRatio, armed: bool) -> bool {
        ratio.at_least(self.threshold(armed), PPM * PPM)
    }

    /// Decides whether a ratio triggers an idle lane.
    pub fn is_triggered(&self, ratio: LaneRatio, armed: bool) -> (hit: bool)
        ensures
            hit == self.triggers(ratio, armed),
    {
        let num: u128 = if ratio.total == 0 {
            0
        } else {
            ratio.on as u128
        };
        let den: u128 = if ratio.total == 0 {
            1
        } else {
            ratio.total as u128
        };
        let scale: u128 = PPM as u128 * PPM as u128;
        assert(num * scale <= usize::MAX * scale) by (nonlinear_arith)
            requires
                0 <= num <= usize::MAX,
                0 <= scale,
        ;
        let lhs: u128 = num * scale;
        if armed {
            if self.hysteresis >= PPM {
                assert(self.threshold(armed) * ratio.den() <= 0) by (nonlinear_arith)
                    requires
                        self.threshold(armed) == self.min_ratio * (PPM - self.hysteresis),
                        self.min_ratio >= 0,
                        PPM - self.hysteresis <= 0,
                        ratio.den() >= 1,
                ;
                true
            } else {
                let factor: u128 = (PPM - self.hysteresis) as u128;
                assert(self.min_ratio * factor <= u32::MAX * PPM) by (nonlinear_arith)
                    requires
                        0 <= self.min_ratio <= u32::MAX,
                        0 <= factor <= PPM,
                ;
                let thr: u128 = self.min_ratio as u128 * factor;
                assert(thr * den <= (u32::MAX * PPM) * usize::MAX) by (nonlinear_arith)
                    requires
                        0 <= thr <= u32::MAX * PPM,
                        0 <= den <= usize::MAX,
                ;
                lhs >= thr * den
            }
        } else {
            let factor: u128 = PPM as u128 + self.hysteresis as u128;
            assert(self.min_ratio * factor <= u32::MAX * (PPM + u32::MAX)) by (nonlinear_arith)
                requires
                    0 <= self.min_ratio <= u32::MAX,
                    0 <= factor <= PPM + u32::MAX,
            ;
            let thr: u128 = self.min_ratio as u128 * factor;
            match thr.checked_mul(den) {
                Some(rhs) => lhs >= rhs,
                None => false,
            }
        }
    }
}

impl Default for SprayCfg {
    fn default() -> (cfg: Self)
        ensures
            cfg == SprayCfg::standard(),
    {
        SprayCfg {
            thr: 16,
            bottom_frac: 300_000,
            min_ratio: 8_000,
            fire_ms: 60,
            holdoff_ms: 200,
            hysteresis: 500_000,
        }
    }
}

/// An armed lane triggers no later than a disarmed one: its threshold is
/// the lower of the two, so a ratio that triggers a disarmed lane triggers
/// an armed lane too.
pub proof fn law_hysteresis_order(cfg: SprayCfg, ratio: LaneRatio)
    ensures
        cfg.threshold(true) <= cfg.threshold(false),
        cfg.triggers(ratio, false) ==> cfg.triggers(ratio, true),
{
    let m = cfg.min_ratio as int;
    let h = cfg.hysteresis as int;
    let p = PPM as int;
    assert(m * (p - h) <= m * (p + h)) by (nonlinear_arith)
        requires
            0 <= m,
            0 <= h,
    ;
    assert(cfg.threshold(true) * ratio.den() <= cfg.threshold(false) * ratio.den())
        by (nonlinear_arith)
        requires
            cfg.threshold(true) <= cfg.threshold(false),
            ratio.den() >= 1,
    ;
}

} // verus!
