//! Lane reduction: from a pixel mask to one ratio per lane.
//!
//! The frame is cut into vertical lanes of `width / lanes` columns, the
//! last lane taking the columns left over, and only the rows of the bottom
//! band are looked at.

use vstd::prelude::*;
use vstd::arithmetic::div_mod::lemma_fundamental_div_mod;
use vstd::arithmetic::div_mod::lemma_mod_pos_bound;
use vstd::arithmetic::mul::lemma_mul_inequality;
use vstd::arithmetic::mul::lemma_mul_is_commutative;
use vstd::arithmetic::mul::lemma_mul_upper_bound;
use crate::error::InvalidInput;
pub use crate::timing::LaneController;
pub use crate::timing::LaneState;
use crate::units::LANES;
use crate::units::PPM;

verus! {

/// Share of set pixels in one lane of the band, kept as the two counts it
/// is made of. Its value is `on / total`, and 0 where `total` is 0.
#[derive(Debug, Clone, Copy, PartialEq, Eq, Structural)]
pub struct LaneRatio {
    /// Set pixels in the lane's part of the band.
    pub on: usize,
    /// All pixels in the lane's part of the band.
    pub total: usize,
}

impl LaneRatio {
    /// Numerator of the ratio's value.
    pub open spec fn num(self) -> int {
        if self.total == 0 {
            0
        } else {
            self.on as int
        }
    }

    /// Denominator of the ratio's value, never zero.
    pub open spec fn den(self) -> int {
        if self.total == 0 {
            1
        } else {
            self.total as int
        }
    }

    /// The ratio is at least `n / d`, for a positive `d`.
    pub open spec fn at_least(self, n: int, d: int) -> bool {
        self.num() * d >= n * self.den()
    }

    /// The ratio is greater than `n / d`, for a positive `d`.
    pub open spec fn above(self, n: int, d: int) -> bool {
        self.num() * d > n * self.den()
    }
}

/// First column of `lane`.
pub open spec fn lane_lo(width: int, lanes: int, lane: int) -> int {
    lane * (width / lanes)
}

/// One past the last column of `lane`. Every lane is `width / lanes`
/// columns wide but the last, which reaches the right edge.
pub open spec fn lane_hi(width: int, lanes: int, lane: int) -> int {
    if lane == lanes - 1 {
        width
    } else {
        (lane + 1) * (width / lanes)
    }
}

/// The lane that column `x` falls into.
pub open spec fn lane_of(x: int, width: int, lanes: int) -> int {
    let q = x / (width / lanes);
    if q >= lanes {
        lanes - 1
    } else {
        q
    }
}

/// Row `y` lies in the bottom band: `y >= height * (1 - bottom_frac)`,
/// with `bottom_frac` in millionths.
pub open spec fn in_band(y: int, height: int, bottom_frac: int) -> bool {
    y * PPM >= height * (PPM - bottom_frac)
}

/// First row of the bottom band: the least row that is `in_band`.
pub open spec fn band_start(height: int, bottom_frac: int) -> int {
    if bottom_frac >= PPM {
        0
    } else {
        (height * (PPM - bottom_frac) + (PPM - 1)) / (PPM as int)
    }
}

/// Set entries among `mask[base + lo .. base + hi]`.
pub open spec fn row_on(mask: Seq<bool>, base: int, lo: int, hi: int) -> nat
    decreases hi - lo,
{
    if hi <= lo {
        0
    } else {
        row_on(mask, base, lo, hi - 1) + if mask[base + hi - 1] {
            1nat
        } else {
            0nat
        }
    }
}

/// Set pixels in the rectangle of columns `lo..hi` and rows `y0..y1` of a
/// row-major mask that is `width` columns wide.
pub open spec fn region_on(mask: Seq<bool>, width: int, lo: int, hi: int, y0: int, y1: int) -> nat
    decreases y1 - y0,
{
    if y1 <= y0 {
        0
    } else {
        region_on(mask, width, lo, hi, y0, y1 - 1) + row_on(mask, (y1 - 1) * width, lo, hi)
    }
}

/// Set pixels of the band that fall into `lane`.
pub open spec fn lane_on(
    mask: Seq<bool>,
    width: int,
    height: int,
    bottom_frac: int,
    lanes: int,
    lane: int,
) -> nat {
    region_on(
        mask,
        width,
        lane_lo(width, lanes, lane),
        lane_hi(width, lanes, lane),
        band_start(height, bottom_frac),
        height,
    )
}

/// All pixels of the band that fall into `lane`.
pub open spec fn lane_total(width: int, height: int, bottom_frac: int, lanes: int, lane: int) -> int {
    (lane_hi(width, lanes, lane) - lane_lo(width, lanes, lane)) * (height - band_start(
        height,
        bottom_frac,
    ))
}

/// Set pixels of the whole band, over every column.
pub open spec fn band_on(mask: Seq<bool>, width: int, height: int, bottom_frac: int) -> nat {
    region_on(mask, width, 0, width, band_start(height, bottom_frac), height)
}

/// Set pixels of the band that fall into the first `count` lanes, lane by
/// lane.
pub open spec fn lanes_on_sum(
    mask: Seq<bool>,
    width: int,
    height: int,
    bottom_frac: int,
    lanes: int,
    count: int,
) -> nat
    decreases count,
{
    if count <= 0 {
        0
    } else {
        lanes_on_sum(mask, width, height, bottom_frac, lanes, count - 1) + lane_on(
            mask,
            width,
            height,
            bottom_frac,
            lanes,
            count - 1,
        )
    }
}

/// The ratio of `lane`: the set pixels and all pixels of the lane's part
/// of the band. The counts fit wherever the mask holds the frame.
pub open spec fn lane_ratio(
    mask: Seq<bool>,
    width: int,
    height: int,
    bottom_frac: int,
    lanes: int,
    lane: int,
) -> LaneRatio {
    LaneRatio {
        on: lane_on(mask, width, height, bottom_frac, lanes, lane) as usize,
        total: lane_total(width, height, bottom_frac, lanes, lane) as usize,
    }
}

/// `ratios` is the reduction of the mask to `lanes` lanes: lane `l` holds
/// the set pixels and all pixels of that lane's part of the band.
pub open spec fn reduces_to(
    mask: Seq<bool>,
    width: int,
    height: int,
    bottom_frac: int,
    lanes: int,
    ratios: Seq<LaneRatio>,
) -> bool {
    &&& ratios.len() == lanes
    &&& forall|l: int|
        0 <= l < lanes ==> {
            &&& (#[trigger] ratios[l]).on == lane_on(mask, width, height, bottom_frac, lanes, l)
            &&& ratios[l].total == lane_total(width, height, bottom_frac, lanes, l)
        }
}

/// The reason for which lane reduction turns its input down, if any. The
/// lane count is looked at first, then the width, then the mask.
pub open spec fn reduce_error(mask_len: int, width: int, height: int, lanes: int) -> Option<
    InvalidInput,
> {
    if lanes == 0 {
        Some(InvalidInput::NoLanes)
    } else if width < lanes {
        Some(InvalidInput::TooManyLanes)
    } else if mask_len != width * height {
        Some(InvalidInput::MaskLength)
    } else {
        None
    }
}

/// The band starts inside the frame, and a row belongs to it exactly when
/// it is not above its first row.
pub proof fn lemma_band_start(height: int, bottom_frac: int)
    requires
        0 <= height,
        0 <= bottom_frac,
    ensures
        0 <= band_start(height, bottom_frac) <= height,
        forall|y: int|
            0 <= y ==> (#[trigger] in_band(y, height, bottom_frac) <==> y >= band_start(
                height,
                bottom_frac,
            )),
{
    let ppm = PPM as int;
    if bottom_frac >= ppm {
        assert forall|y: int| 0 <= y implies #[trigger] in_band(y, height, bottom_frac) by {
            assert(height * (ppm - bottom_frac) <= 0) by (nonlinear_arith)
                requires
                    0 <= height,
                    ppm - bottom_frac <= 0,
            ;
            assert(y * ppm >= 0) by (nonlinear_arith)
                requires
                    0 <= y,
                    ppm > 0,
            ;
        }
    } else {
        let d = ppm - bottom_frac;
        let a = height * d;
        assert(0 <= a <= height * ppm) by (nonlinear_arith)
            requires
                0 <= height,
                0 < d <= ppm,
                a == height * d,
        ;
        let s = (a + (ppm - 1)) / ppm;
        assert(s == band_start(height, bottom_frac));
        assert(height * ppm == ppm * height) by (nonlinear_arith);
        assert forall|y: int| 0 <= y implies (#[trigger] in_band(y, height, bottom_frac) <==> y
            >= s) by {
            assert(y * ppm == ppm * y) by (nonlinear_arith);
        }
    }
}

/// Lanes lie inside the frame, side by side, and cover it from the left
/// edge to the right edge.
pub proof fn lemma_lane_bounds(width: int, lanes: int, lane: int)
    requires
        0 < lanes <= width,
        0 <= lane < lanes,
    ensures
        width / lanes >= 1,
        0 <= lane_lo(width, lanes, lane),
        lane_lo(width, lanes, lane) + width / lanes <= lane_hi(width, lanes, lane) <= width,
        lane + 1 < lanes ==> lane_hi(width, lanes, lane) == lane_lo(width, lanes, lane + 1),
        lane == 0 ==> lane_lo(width, lanes, lane) == 0,
        lane == lanes - 1 ==> lane_hi(width, lanes, lane) == width,
{
    let lw = width / lanes;
    lemma_fundamental_div_mod(width, lanes);
    lemma_mod_pos_bound(width, lanes);
    assert(lanes * lw <= width);
    assert(lw >= 1) by (nonlinear_arith)
        requires
            0 < lanes <= width,
            width == lanes * lw + width % lanes,
            0 <= width % lanes < lanes,
    ;
    assert(0 <= lane * lw) by (nonlinear_arith)
        requires
            0 <= lane,
            0 <= lw,
    ;
    assert((lane + 1) * lw == lane * lw + lw) by (nonlinear_arith);
    assert((lane + 1) * lw <= lanes * lw) by (nonlinear_arith)
        requires
            lane + 1 <= lanes,
            0 <= lw,
    ;
    assert(lanes * lw == lw * lanes) by (nonlinear_arith);
}

/// A row count over `lo..hi` is the sum of the counts over `lo..mid` and
/// `mid..hi`.
pub proof fn lemma_row_on_split(mask: Seq<bool>, base: int, lo: int, mid: int, hi: int)
    requires
        lo <= mid <= hi,
    ensures
        row_on(mask, base, lo, hi) == row_on(mask, base, lo, mid) + row_on(mask, base, mid, hi),
    decreases hi - mid,
{
    if hi > mid {
        lemma_row_on_split(mask, base, lo, mid, hi - 1);
    }
}

/// A region count over columns `lo..hi` is the sum of the counts over
/// `lo..mid` and `mid..hi`.
pub proof fn lemma_region_on_split(
    mask: Seq<bool>,
    width: int,
    lo: int,
    mid: int,
    hi: int,
    y0: int,
    y1: int,
)
    requires
        lo <= mid <= hi,
    ensures
        region_on(mask, width, lo, hi, y0, y1) == region_on(mask, width, lo, mid, y0, y1)
            + region_on(mask, width, mid, hi, y0, y1),
    decreases y1 - y0,
{
    if y1 > y0 {
        lemma_region_on_split(mask, width, lo, mid, hi, y0, y1 - 1);
        lemma_row_on_split(mask, (y1 - 1) * width, lo, mid, hi);
    }
}

/// The first `count` lanes hold between them the set pixels of the band
/// that lie left of the last of these lanes' right edge.
proof fn lemma_lanes_on_prefix(
    mask: Seq<bool>,
    width: int,
    height: int,
    bottom_frac: int,
    lanes: int,
    count: int,
)
    requires
        0 < lanes <= width,
        1 <= count <= lanes,
    ensures
        lanes_on_sum(mask, width, height, bottom_frac, lanes, count) == region_on(
            mask,
            width,
            0,
            lane_hi(width, lanes, count - 1),
            band_start(height, bottom_frac),
            height,
        ),
    decreases count,
{
    lemma_lane_bounds(width, lanes, count - 1);
    if count > 1 {
        lemma_lane_bounds(width, lanes, count - 2);
        lemma_lanes_on_prefix(mask, width, height, bottom_frac, lanes, count - 1);
        lemma_region_on_split(
            mask,
            width,
            0,
            lane_lo(width, lanes, count - 1),
            lane_hi(width, lanes, count - 1),
            band_start(height, bottom_frac),
            height,
        );
    } else {
        assert(lanes_on_sum(mask, width, height, bottom_frac, lanes, 0) == 0);
    }
}

/// The lanes share out the band: their set-pixel counts add up to the
/// number of set pixels in the whole band.
pub proof fn law_lane_counts_add_up(
    mask: Seq<bool>,
    width: int,
    height: int,
    bottom_frac: int,
    lanes: int,
)
    requires
        0 < lanes <= width,
    ensures
        lanes_on_sum(mask, width, height, bottom_frac, lanes, lanes) == band_on(
            mask,
            width,
            height,
            bottom_frac,
        ),
{
    lemma_lanes_on_prefix(mask, width, height, bottom_frac, lanes, lanes);
    lemma_lane_bounds(width, lanes, lanes - 1);
}

/// Lane reduction is a function of the mask, the geometry and the bottom
/// fraction: two reductions of the same input are the same ratios.
pub proof fn law_reduction_is_unique(
    mask: Seq<bool>,
    width: int,
    height: int,
    bottom_frac: int,
    lanes: int,
    first: Seq<LaneRatio>,
    second: Seq<LaneRatio>,
)
    requires
        reduces_to(mask, width, height, bottom_frac, lanes, first),
        reduces_to(mask, width, height, bottom_frac, lanes, second),
    ensures
        first == second,
{
    assert forall|l: int| 0 <= l < first.len() implies first[l] == second[l] by {
        assert(first[l].on == second[l].on);
        assert(first[l].total == second[l].total);
    }
    assert(first =~= second);
}

/// Every column is covered exactly once: column `x` lies in lane
/// `lane_of(x)` and in no other.
pub proof fn law_every_column_in_one_lane(width: int, lanes: int, x: int, lane: int)
    requires
        0 < lanes <= width,
        0 <= x < width,
        0 <= lane < lanes,
    ensures
        0 <= lane_of(x, width, lanes) < lanes,
        (lane_lo(width, lanes, lane) <= x < lane_hi(width, lanes, lane)) <==> lane == lane_of(
            x,
            width,
            lanes,
        ),
{
    let lw = width / lanes;
    lemma_lane_bounds(width, lanes, lane);
    lemma_fundamental_div_mod(x, lw);
    lemma_mod_pos_bound(x, lw);
    let q = x / lw;
    let r = x % lw;
    assert(q >= 0) by (nonlinear_arith)
        requires
            x == lw * q + r,
            0 <= r < lw,
            0 <= x,
    ;
    assert((lane * lw <= x < (lane + 1) * lw) <==> q == lane) by (nonlinear_arith)
        requires
            x == lw * q + r,
            0 <= r < lw,
    ;
    assert(((lanes - 1) * lw <= x) <==> q >= lanes - 1) by (nonlinear_arith)
        requires
            x == lw * q + r,
            0 <= r < lw,
    ;
}

/// With a bottom fraction of zero no row is looked at: every lane counts
/// nothing out of nothing, so its ratio is 0.
pub proof fn law_empty_band(mask: Seq<bool>, width: int, height: int, lanes: int, lane: int)
    requires
        0 <= height,
    ensures
        band_start(height, 0) == height,
        lane_on(mask, width, height, 0, lanes, lane) == 0,
        lane_total(width, height, 0, lanes, lane) == 0,
{
    assert(height * (PPM - 0) == height * (PPM as int));
    assert((height * (PPM as int) + (PPM - 1)) / (PPM as int) == height) by (nonlinear_arith);
    let cols = lane_hi(width, lanes, lane) - lane_lo(width, lanes, lane);
    assert(cols * (height - height) == 0) by (nonlinear_arith);
}

/// With a bottom fraction of one, or more, every row is looked at: each
/// lane's total is its width times the frame's height.
pub proof fn law_full_band(width: int, height: int, bottom_frac: int, lanes: int, lane: int)
    requires
        bottom_frac >= PPM,
    ensures
        band_start(height, bottom_frac) == 0,
        lane_total(width, height, bottom_frac, lanes, lane) == (lane_hi(width, lanes, lane)
            - lane_lo(width, lanes, lane)) * height,
{
}

/// Every lane but the last is `width / lanes` columns wide; the last also
/// holds the `width % lanes` columns left over, so it is never narrower
/// than the others.
pub proof fn law_lane_widths(width: int, lanes: int, lane: int)
    requires
        0 < lanes <= width,
        0 <= lane < lanes,
    ensures
        lane < lanes - 1 ==> lane_hi(width, lanes, lane) - lane_lo(width, lanes, lane) == width
            / lanes,
        lane == lanes - 1 ==> lane_hi(width, lanes, lane) - lane_lo(width, lanes, lane) == width
            / lanes + width % lanes,
{
    let lw = width / lanes;
    lemma_fundamental_div_mod(width, lanes);
    assert((lane + 1) * lw - lane * lw == lw) by (nonlinear_arith);
    assert((lanes - 1) * lw == lanes * lw - lw) by (nonlinear_arith);
}

/// Counts the set entries of one row segment.
fn count_row(mask: &[bool], base: usize, lo: usize, hi: usize) -> (count: usize)
    requires
        lo <= hi,
        base + hi <= mask@.len(),
    ensures
        count == row_on(mask@, base as int, lo as int, hi as int),
        count <= hi - lo,
{
    let len: usize = mask.len();
    let mut count: usize = 0;
    let mut x: usize = lo;
    while x < hi
        invariant
            lo <= x <= hi,
            len == mask@.len(),
            base + hi <= len,
            count == row_on(mask@, base as int, lo as int, x as int),
            count <= x - lo,
        decreases hi - x,
    {
        if mask[base + x] {
            count += 1;
        }
        x += 1;
    }
    count
}

/// Counts the set pixels of the rectangle of columns `lo..hi` and rows
/// `y0..height`.
fn count_region(mask: &[bool], width: usize, height: usize, lo: usize, hi: usize, y0: usize) -> (count:
    usize)
    requires
        lo <= hi <= width,
        y0 <= height,
        mask@.len() == width * height,
    ensures
        count == region_on(
            mask@,
            width as int,
            lo as int,
            hi as int,
            y0 as int,
            height as int,
        ),
        count <= (hi - lo) * (height - y0),
{
    let len: usize = mask.len();
    let mut count: usize = 0;
    let mut y: usize = y0;
    proof {
        lemma_mul_inequality(y0 as int, height as int, width as int);
        lemma_mul_is_commutative(width as int, height as int);
        assert((hi - lo) * (y0 - y0) == 0) by (nonlinear_arith);
    }
    let mut base: usize = y0 * width;
    while y < height
        invariant
            lo <= hi <= width,
            y0 <= y <= height,
            len == mask@.len(),
            len == width * height,
            base == y * width,
            count == region_on(mask@, width as int, lo as int, hi as int, y0 as int, y as int),
            count <= (hi - lo) * (y - y0),
        decreases height - y,
    {
        proof {
            lemma_mul_inequality(y as int + 1, height as int, width as int);
            lemma_mul_is_commutative(width as int, height as int);
            assert((y + 1) * width == y * width + width) by (nonlinear_arith);
            assert((hi - lo) * (y + 1 - y0) == (hi - lo) * (y - y0) + (hi - lo)) by (nonlinear_arith);
            lemma_mul_upper_bound(
                hi as int - lo as int,
                width as int,
                y as int + 1 - y0 as int,
                height as int,
            );
        }
        let row: usize = count_row(mask, base, lo, hi);
        count += row;
        base += width;
        y += 1;
    }
    count
}

/// Reduces a mask to one ratio per lane.
///
/// Fails exactly on the inputs that `reduce_error` names. Otherwise lane
/// `l` of the result holds the set pixels and all pixels of that lane's
/// part of the band.
pub fn lane_ratios(
    mask: &[bool],
    width: usize,
    height: usize,
    bottom_frac: u32,
    lanes: usize,
) -> (res: Result<Vec<LaneRatio>, InvalidInput>)
    ensures
        match res {
            Ok(ratios) => {
                &&& reduce_error(mask@.len() as int, width as int, height as int, lanes as int)
                    is None
                &&& reduces_to(
                    mask@,
                    width as int,
                    height as int,
                    bottom_frac as int,
                    lanes as int,
                    ratios@,
                )
                &&& forall|l: int| 0 <= l < lanes ==> (#[trigger] ratios@[l]).on <= ratios@[l].total
            },
            Err(e) => reduce_error(mask@.len() as int, width as int, height as int, lanes as int)
                == Some(e),
        },
{
    let len: usize = mask.len();
    if lanes == 0 {
        return Err(InvalidInput::NoLanes);
    }
    if width < lanes {
        return Err(InvalidInput::TooManyLanes);
    }
    match width.checked_mul(height) {
        Some(pixels) => {
            if len != pixels {
                return Err(InvalidInput::MaskLength);
            }
        },
        None => {
            return Err(InvalidInput::MaskLength);
        },
    }
    let start: usize = first_band_row(height, bottom_frac);
    let lane_w: usize = width / lanes;
    let mut ratios: Vec<LaneRatio> = Vec::with_capacity(lanes);
    let mut lane: usize = 0;
    while lane < lanes
        invariant
            0 < lanes <= width,
            lane <= lanes,
            lane_w == width / lanes,
            start == band_start(height as int, bottom_frac as int),
            start <= height,
            len == mask@.len(),
            len == width * height,
            ratios@.len() == lane,
            forall|l: int|
                0 <= l < lane ==> {
                    &&& (#[trigger] ratios@[l]).on == lane_on(
                        mask@,
                        width as int,
                        height as int,
                        bottom_frac as int,
                        lanes as int,
                        l,
                    )
                    &&& ratios@[l].total == lane_total(
                        width as int,
                        height as int,
                        bottom_frac as int,
                        lanes as int,
                        l,
                    )
                    &&& ratios@[l].on <= ratios@[l].total
                },
        decreases lanes - lane,
    {
        proof {
            lemma_lane_bounds(width as int, lanes as int, lane as int);
        }
        let lo: usize = lane * lane_w;
        let hi: usize = if lane == lanes - 1 {
            width
        } else {
            lo + lane_w
        };
        proof {
            assert((lane + 1) * lane_w == lane * lane_w + lane_w) by (nonlinear_arith);
            lemma_mul_upper_bound(
                hi as int - lo as int,
                width as int,
                height as int - start as int,
                height as int,
            );
        }
        let on: usize = count_region(mask, width, height, lo, hi, start);
        let total: usize = (hi - lo) * (height - start);
        ratios.push(LaneRatio { on, total });
        lane += 1;
    }
    Ok(ratios)
}

/// Computes the first row of the bottom band.
pub fn first_band_row(height: usize, bottom_frac: u32) -> (start: usize)
    ensures
        start == band_start(height as int, bottom_frac as int),
        start <= height,
{
    proof {
        lemma_band_start(height as int, bottom_frac as int);
    }
    if bottom_frac >= PPM {
        0
    } else {
        let d: u128 = (PPM - bottom_frac) as u128;
        assert(height * d <= height * PPM) by (nonlinear_arith)
            requires
                0 <= d <= PPM,
                0 <= height,
        ;
        let a: u128 = height as u128 * d;
        let s: u128 = (a + (PPM as u128 - 1)) / (PPM as u128);
        s as usize
    }
}

/// Reduces a mask to the ratios of the four spray lanes.
///
/// Fails exactly on the inputs that `reduce_error` names for four lanes.
pub fn reduce_lanes(mask: &[bool], width: usize, height: usize, bottom_frac: u32) -> (res: Result<
    [LaneRatio; 4],
    InvalidInput,
>)
    ensures
        match res {
            Ok(ratios) => {
                &&& reduce_error(mask@.len() as int, width as int, height as int, LANES as int)
                    is None
                &&& reduces_to(
                    mask@,
                    width as int,
                    height as int,
                    bottom_frac as int,
                    LANES as int,
                    ratios@,
                )
                &&& forall|l: int| 0 <= l < LANES ==> (#[trigger] ratios@[l]).on <= ratios@[l].total
                &&& ratios@[0].on + ratios@[1].on + ratios@[2].on + ratios@[3].on == band_on(
                    mask@,
                    width as int,
                    height as int,
                    bottom_frac as int,
                )
            },
            Err(e) => reduce_error(mask@.len() as int, width as int, height as int, LANES as int)
                == Some(e),
        },
{
    match lane_ratios(mask, width, height, bottom_frac, LANES) {
        Ok(v) => {
            proof {
                law_lane_counts_add_up(
                    mask@,
                    width as int,
                    height as int,
                    bottom_frac as int,
                    LANES as int,
                );
                reveal_with_fuel(lanes_on_sum, 5);
            }
            Ok([v[0], v[1], v[2], v[3]])
        },
        Err(e) => Err(e),
    }
}

/// Whether a lane of the switching reducer is on after a frame: a lane
/// that was off turns on above the `on` threshold, and a lane that was on
/// stays on above the lower `off` threshold. Thresholds are in millionths.
pub open spec fn lane_switch(was_on: bool, ratio: LaneRatio, on: u32, off: u32) -> bool {
    if was_on {
        ratio.above(off as int, PPM as int)
    } else {
        ratio.above(on as int, PPM as int)
    }
}

/// Tells whether a ratio is greater than a threshold in millionths.
pub fn ratio_above(ratio: LaneRatio, threshold: u32) -> (above: bool)
    ensures
        above == ratio.above(threshold as int, PPM as int),
{
    let num: u128 = if ratio.total == 0 {
        0
    } else {
        ratio.on as u128
    };
    let den: u128 = if ratio.total == 0 {
        1
    } else {
        ratio.total as u128
    };
    assert(num * PPM <= usize::MAX * PPM) by (nonlinear_arith)
        requires
            0 <= num <= usize::MAX,
    ;
    assert(threshold * den <= u32::MAX * usize::MAX) by (nonlinear_arith)
        requires
            0 <= threshold <= u32::MAX,
            0 <= den <= usize::MAX,
    ;
    num * (PPM as u128) > (threshold as u128) * den
}

/// Lane reducer that switches lanes on and off by itself, for use without
/// a timing controller. It looks at every row of the frame and remembers
/// for each lane whether it was on after the previous frame.
pub struct LaneReducer {
    lanes: usize,
    on: u32,
    off: u32,
    state: Vec<bool>,
}

impl LaneReducer {
    #[verifier::type_invariant]
    spec fn well_formed(self) -> bool {
        self.lanes > 0 && self.state@.len() == self.lanes
    }

    /// Number of lanes.
    pub closed spec fn lane_count(&self) -> usize {
        self.lanes
    }

    /// Ratio, in millionths, above which a lane that is off turns on.
    pub closed spec fn on_threshold(&self) -> u32 {
        self.on
    }

    /// Ratio, in millionths, above which a lane that is on stays on.
    pub closed spec fn off_threshold(&self) -> u32 {
        self.off
    }

    /// Whether each lane was on after the last frame.
    pub closed spec fn state(&self) -> Seq<bool> {
        self.state@
    }

    /// A reducer with `lanes` lanes, all off.
    ///
    /// Fails with `NoLanes` exactly when `lanes` is zero.
    pub fn new(lanes: usize, on: u32, off: u32) -> (res: Result<LaneReducer, InvalidInput>)
        ensures
            res is Ok <==> lanes > 0,
            res matches Ok(reducer) ==> {
                &&& reducer.lane_count() == lanes
                &&& reducer.on_threshold() == on
                &&& reducer.off_threshold() == off
                &&& reducer.state() == Seq::new(lanes as nat, |l: int| false)
            },
            res matches Err(e) ==> e == InvalidInput::NoLanes,
    {
        if lanes == 0 {
            return Err(InvalidInput::NoLanes);
        }
        let mut state: Vec<bool> = Vec::with_capacity(lanes);
        let mut l: usize = 0;
        while l < lanes
            invariant
                l <= lanes,
                state@.len() == l,
                forall|k: int| 0 <= k < l ==> !state@[k],
            decreases lanes - l,
        {
            state.push(false);
            l += 1;
        }
        assert(state@ =~= Seq::new(lanes as nat, |l: int| false));
        Ok(LaneReducer { lanes, on, off, state })
    }

    /// Reduces the mask of one frame and switches the lanes.
    ///
    /// Fails exactly on the inputs that `reduce_error` names, and then
    /// remembers what it remembered. Otherwise lane `l` of the result is
    /// `lane_switch` of what the lane was and of its ratio over the whole
    /// frame, and the result is remembered for the next frame.
    pub fn reduce(&mut self, mask: &[bool], width: usize, height: usize) -> (res: Result<
        Vec<bool>,
        InvalidInput,
    >)
        ensures
            final(self).lane_count() == old(self).lane_count(),
            final(self).on_threshold() == old(self).on_threshold(),
            final(self).off_threshold() == old(self).off_threshold(),
            match res {
                Ok(out) => {
                    &&& reduce_error(
                        mask@.len() as int,
                        width as int,
                        height as int,
                        old(self).lane_count() as int,
                    ) is None
                    &&& out@.len() == old(self).lane_count()
                    &&& final(self).state() == out@
                    &&& forall|l: int|
                        0 <= l < out@.len() ==> #[trigger] out@[l] == lane_switch(
                            old(self).state()[l],
                            lane_ratio(
                                mask@,
                                width as int,
                                height as int,
                                PPM as int,
                                old(self).lane_count() as int,
                                l,
                            ),
                            old(self).on_threshold(),
                            old(self).off_threshold(),
                        )
                },
                Err(e) => {
                    &&& reduce_error(
                        mask@.len() as int,
                        width as int,
                        height as int,
                        old(self).lane_count() as int,
                    ) == Some(e)
                    &&& final(self).state() == old(self).state()
                },
            },
    {
        proof {
            use_type_invariant(&*self);
        }
        let ratios = match lane_ratios(mask, width, height, PPM, self.lanes) {
            Ok(ratios) => ratios,
            Err(e) => {
                return Err(e);
            },
        };
        let mut out: Vec<bool> = Vec::with_capacity(self.lanes);
        let mut next: Vec<bool> = Vec::with_capacity(self.lanes);
        let mut l: usize = 0;
        while l < self.lanes
            invariant
                l <= self.lanes,
                *self == *old(self),
                self.state@.len() == self.lanes,
                ratios@.len() == self.lanes,
                out@.len() == l,
                next@ == out@,
                forall|k: int| 0 <= k < l ==> #[trigger] out@[k] == lane_switch(
                    self.state@[k],
                    ratios@[k],
                    self.on,
                    self.off,
                ),
            decreases self.lanes - l,
        {
            let threshold: u32 = if self.state[l] {
                self.off
            } else {
                self.on
            };
            let is_on: bool = ratio_above(ratios[l], threshold);
            out.push(is_on);
            next.push(is_on);
            l += 1;
        }
        self.state = next;
        Ok(out)
    }
}

} // verus!
