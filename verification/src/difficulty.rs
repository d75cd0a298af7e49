//! The difficulty curve: how wide a hole may be and how far it may drift
//! from the hole before it, as functions of the pair's index.

use vstd::prelude::*;
use crate::tuning::{
    DRIFT_PACE, GAP_FLOOR_TENTHS, GAP_PACE, MAX_GAP_SCALE_TENTHS, MIN_GAP_SCALE_TENTHS,
    RADIUS_LIMIT, DIAMETER_IN_RADII, VIEW_LIMIT,
};

verus! {

/// The largest diameter that a body may have.
pub open spec fn diameter_limit() -> int {
    DIAMETER_IN_RADII * RADIUS_LIMIT
}

/// The narrowest hole there ever is: eleven tenths of the body's diameter,
/// rounded up to a whole unit.
pub open spec fn gap_floor(diameter: int) -> int {
    (GAP_FLOOR_TENTHS * diameter + 9) / 10
}

/// What a hole of the pair `index` may have above the floor, where the first
/// pair may have `scale_tenths` tenths of the diameter: the scale divided by
/// `1 + index / GAP_PACE`, rounded down to a whole unit.
pub open spec fn gap_excess(scale_tenths: int, diameter: int, index: int) -> int {
    (scale_tenths * diameter) / (GAP_PACE + index)
}

/// The narrowest hole that the pair `index` may have.
pub open spec fn min_gap(diameter: int, index: int) -> int {
    gap_floor(diameter) + gap_excess(MIN_GAP_SCALE_TENTHS as int, diameter, index)
}

/// The widest hole that the pair `index` may have.
pub open spec fn max_gap(diameter: int, index: int) -> int {
    gap_floor(diameter) + gap_excess(MAX_GAP_SCALE_TENTHS as int, diameter, index)
}

/// The upper end of the interval that a hole's width is drawn from: the
/// widest hole, but never less than the narrowest.
pub open spec fn gap_ceiling(diameter: int, index: int) -> int {
    if max_gap(diameter, index) >= min_gap(diameter, index) {
        max_gap(diameter, index)
    } else {
        min_gap(diameter, index)
    }
}

/// The farthest that the hole of the pair `index` may lie above or below
/// the hole before it: `height * index / (index + DRIFT_PACE)`, rounded down
/// to a whole unit.
pub open spec fn drift_max(height: int, index: int) -> int {
    (height * index) / (index + DRIFT_PACE)
}

/// The interval that the width of the hole of the pair `index` is drawn
/// from.
pub fn gap_bounds(diameter: i64, index: u64) -> (bounds: (i64, i64))
    requires
        0 <= diameter <= diameter_limit(),
    ensures
        bounds.0 == min_gap(diameter as int, index as int),
        bounds.1 == gap_ceiling(diameter as int, index as int),
        bounds.0 <= bounds.1,
{
    assert(diameter_limit() == 5_000_000);
    let d: u128 = diameter as u128;
    assert(GAP_FLOOR_TENTHS * d == 11 * d);
    assert(MIN_GAP_SCALE_TENTHS * d == 19 * d);
    assert(MAX_GAP_SCALE_TENTHS * d == 39 * d);
    let pace: u128 = GAP_PACE as u128 + index as u128;
    let floor: u128 = (GAP_FLOOR_TENTHS as u128 * d + 9) / 10;
    let low_excess: u128 = (MIN_GAP_SCALE_TENTHS as u128 * d) / pace;
    let high_excess: u128 = (MAX_GAP_SCALE_TENTHS as u128 * d) / pace;
    proof {
        lemma_quotient_within(MIN_GAP_SCALE_TENTHS * d, pace as int);
        lemma_quotient_within(MAX_GAP_SCALE_TENTHS * d, pace as int);
    }
    let low: i64 = (floor + low_excess) as i64;
    let high: i64 = (floor + high_excess) as i64;
    if high >= low {
        (low, high)
    } else {
        (low, low)
    }
}

/// The farthest that the hole of the pair `index` may drift in a visible
/// area of the given height.
pub fn drift_limit(height: i64, index: u64) -> (limit: i64)
    requires
        0 <= height <= VIEW_LIMIT,
    ensures
        limit == drift_max(height as int, index as int),
        0 <= limit <= height,
{
    proof {
        assert(height as int * index as int <= 1_000_000_000 * 0xffff_ffff_ffff_ffff)
            by (nonlinear_arith)
            requires
                0 <= height <= 1_000_000_000,
                0 <= index <= 0xffff_ffff_ffff_ffff,
        ;
        assert(0 <= height as int * index as int) by (nonlinear_arith)
            requires
                0 <= height,
                0 <= index,
        ;
        law_drift_stays_below_height(height as int, index as int);
    }
    let product: u128 = height as u128 * index as u128;
    let pace: u128 = index as u128 + DRIFT_PACE as u128;
    (product / pace) as i64
}

/// A quotient of a number that is not negative by a divisor of at least one
/// lies between zero and the number.
proof fn lemma_quotient_within(x: int, d: int)
    requires
        0 <= x,
        1 <= d,
    ensures
        0 <= x / d <= x,
{
    assert(0 <= x / d <= x) by (nonlinear_arith)
        requires
            0 <= x,
            1 <= d,
    ;
}

/// Between which multiples of the divisor a number lies.
proof fn lemma_quotient_brackets(x: int, d: int)
    requires
        0 < d,
    ensures
        (x / d) * d <= x < (x / d) * d + d,
{
    assert((x / d) * d <= x < (x / d) * d + d) by (nonlinear_arith)
        requires
            0 < d,
    ;
}

/// A number whose multiple by the divisor does not exceed `x` does not
/// exceed the quotient.
proof fn lemma_quotient_at_least(q: int, x: int, d: int)
    requires
        0 < d,
        q * d <= x,
    ensures
        q <= x / d,
{
    lemma_quotient_brackets(x, d);
    assert(q <= x / d) by (nonlinear_arith)
        requires
            0 < d,
            q * d <= x,
            x < (x / d) * d + d,
    ;
}

/// A hole is never narrower than eleven tenths of the body's diameter.
pub proof fn law_gap_keeps_floor(diameter: int, index: int)
    requires
        0 <= diameter,
        0 <= index,
    ensures
        10 * gap_floor(diameter) >= 11 * diameter,
        min_gap(diameter, index) >= gap_floor(diameter),
        10 * min_gap(diameter, index) >= 11 * diameter,
{
    lemma_quotient_within(MIN_GAP_SCALE_TENTHS * diameter, GAP_PACE + index);
}

/// The interval that a hole's width is drawn from is never empty, and the
/// guard on its upper end never has to act.
pub proof fn law_gap_bounds_ordered(diameter: int, index: int)
    requires
        0 <= diameter,
        0 <= index,
    ensures
        min_gap(diameter, index) <= max_gap(diameter, index),
        gap_ceiling(diameter, index) == max_gap(diameter, index),
{
    vstd::arithmetic::div_mod::lemma_div_is_ordered(
        MIN_GAP_SCALE_TENTHS * diameter,
        MAX_GAP_SCALE_TENTHS * diameter,
        GAP_PACE + index,
    );
}

/// The first pair's hole is between three and five diameters wide.
pub proof fn law_first_gap_bounds(diameter: int)
    requires
        0 <= diameter,
    ensures
        min_gap(diameter, 0) == 3 * diameter,
        max_gap(diameter, 0) == 5 * diameter,
{
}

/// Holes never get wider as the game goes on: for `earlier < later`, both
/// ends of the interval at `later` are at most what they are at `earlier`.
pub proof fn law_gaps_never_widen(diameter: int, earlier: int, later: int)
    requires
        0 <= diameter,
        0 <= earlier < later,
    ensures
        max_gap(diameter, earlier) >= max_gap(diameter, later),
        min_gap(diameter, earlier) >= min_gap(diameter, later),
        gap_ceiling(diameter, earlier) >= gap_ceiling(diameter, later),
{
    vstd::arithmetic::div_mod::lemma_div_is_ordered_by_denominator(
        MAX_GAP_SCALE_TENTHS * diameter,
        GAP_PACE + earlier,
        GAP_PACE + later,
    );
    vstd::arithmetic::div_mod::lemma_div_is_ordered_by_denominator(
        MIN_GAP_SCALE_TENTHS * diameter,
        GAP_PACE + earlier,
        GAP_PACE + later,
    );
    law_gap_bounds_ordered(diameter, earlier);
    law_gap_bounds_ordered(diameter, later);
}

/// The largest drift is zero for the first pair and stays below the visible
/// height.
pub proof fn law_drift_stays_below_height(height: int, index: int)
    requires
        0 <= height,
        0 <= index,
    ensures
        0 <= drift_max(height, index) <= height,
        drift_max(height, 0) == 0,
        height > 0 ==> drift_max(height, index) < height,
{
    let d = index + DRIFT_PACE;
    lemma_quotient_brackets(height * index, d);
    let q = (height * index) / d;
    assert(0 <= height * index) by (nonlinear_arith)
        requires
            0 <= height,
            0 <= index,
    ;
    lemma_quotient_within(height * index, d);
    assert(q <= height && (height > 0 ==> q < height)) by (nonlinear_arith)
        requires
            q * d <= height * index,
            d == index + 10,
            0 <= index,
            0 <= height,
            0 <= q,
    ;
    assert(height * 0 == 0);
}

/// The largest drift never shrinks as the game goes on: for
/// `earlier < later` it is at `later` at least what it is at `earlier`.
pub proof fn law_drift_never_shrinks(height: int, earlier: int, later: int)
    requires
        0 <= height,
        0 <= earlier < later,
    ensures
        drift_max(height, earlier) <= drift_max(height, later),
{
    let q = drift_max(height, earlier);
    law_drift_stays_below_height(height, earlier);
    lemma_quotient_brackets(height * earlier, earlier + DRIFT_PACE);
    assert(q * (later + 10) <= height * later) by (nonlinear_arith)
        requires
            q * (earlier + 10) <= height * earlier,
            0 <= q <= height,
            0 <= earlier < later,
    ;
    lemma_quotient_at_least(q, height * later, later + DRIFT_PACE);
}

} // verus!
