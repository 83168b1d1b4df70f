//! Mode converter: bidirectional mapping between hardware brightness values
//! and mode-relative values, rounding to nearest with ties away from zero.

use vstd::prelude::*;

verus! {

use vstd::arithmetic::div_mod::{
    lemma_fundamental_div_mod,
    lemma_fundamental_div_mod_converse,
    lemma_mod_division_less_than_divisor,
};
use vstd::arithmetic::mul::{lemma_mul_inequality, lemma_mul_upper_bound};

/// Division `a / b` rounded to the nearest integer, ties away from zero,
/// for a non-negative dividend and positive divisor.
pub open spec fn round_div(a: int, b: int) -> int {
    (2 * a + b) / (2 * b)
}

/// Mode value of a hardware value: `round(hw_val / hw_max * span)`.
pub open spec fn to_mode_value(hw_max: int, span: int, hw_val: int) -> int {
    round_div(hw_val * span, hw_max)
}

/// Hardware value of a mode value: `round(hw_max / span * mode_val)`.
pub open spec fn to_hardware_value(hw_max: int, span: int, mode_val: int) -> int {
    round_div(hw_max * mode_val, span)
}

/// `a / b` rounded upward, for a positive divisor.
pub open spec fn ceil_div(a: int, b: int) -> int {
    (a + b - 1) / b
}

/// The rounded quotient differs from the exact rational `a / b` by at most
/// one half: `2*a - b < 2*b*round_div(a, b) <= 2*a + b`.
pub proof fn lemma_round_div_bounds(a: int, b: int)
    requires
        0 <= a,
        0 < b,
    ensures
        2 * a - b < 2 * b * round_div(a, b),
        2 * b * round_div(a, b) <= 2 * a + b,
        0 <= round_div(a, b),
{
    let q: int = round_div(a, b);
    lemma_fundamental_div_mod(2 * a + b, 2 * b);
    lemma_mod_division_less_than_divisor(2 * a + b, 2 * b);
    assert(2 * a + b == 2 * b * q + (2 * a + b) % (2 * b));
    if q < 0 {
        lemma_mul_inequality(q, -1, 2 * b);
        assert(q * (2 * b) <= (-1) * (2 * b));
        assert(false);
    }
}

/// A rounded quotient stays below any bound the exact quotient respects:
/// if `a <= b * c` then `round_div(a, b) <= c`.
pub proof fn lemma_round_div_le(a: int, b: int, c: int)
    requires
        0 <= a,
        0 < b,
        0 <= c,
        a <= b * c,
    ensures
        round_div(a, b) <= c,
{
    let q: int = round_div(a, b);
    lemma_round_div_bounds(a, b);
    assert(2 * b * q <= 2 * (b * c) + b);
    assert(q <= c) by (nonlinear_arith)
        requires
            0 < b,
            2 * b * q <= 2 * (b * c) + b,
    ;
}

/// Converting with a span equal to the hardware maximum is the identity:
/// absolute mode is lossless in both directions.
pub proof fn lemma_absolute_identity(hw_max: int, x: int)
    requires
        0 < hw_max,
        0 <= x <= hw_max,
    ensures
        to_mode_value(hw_max, hw_max, x) == x,
        to_hardware_value(hw_max, hw_max, x) == x,
{
    assert(2 * (x * hw_max) + hw_max == x * (2 * hw_max) + hw_max) by (nonlinear_arith);
    lemma_fundamental_div_mod_converse(2 * (x * hw_max) + hw_max, 2 * hw_max, x, hw_max);
    assert(x * hw_max == hw_max * x) by (nonlinear_arith);
}

/// Mode values of in-range hardware values lie in `[0, span]`.
pub proof fn lemma_to_mode_value_in_range(hw_max: int, span: int, hw_val: int)
    requires
        0 < hw_max,
        0 <= span,
        0 <= hw_val <= hw_max,
    ensures
        0 <= to_mode_value(hw_max, span, hw_val) <= span,
{
    assert(0 <= hw_val * span) by (nonlinear_arith)
        requires
            0 <= hw_val,
            0 <= span,
    ;
    lemma_mul_inequality(hw_val, hw_max, span);
    lemma_round_div_bounds(hw_val * span, hw_max);
    lemma_round_div_le(hw_val * span, hw_max, span);
}

/// Hardware values of in-range mode values lie in `[0, hw_max]`.
pub proof fn lemma_to_hardware_value_in_range(hw_max: int, span: int, mode_val: int)
    requires
        0 <= hw_max,
        0 < span,
        0 <= mode_val <= span,
    ensures
        0 <= to_hardware_value(hw_max, span, mode_val) <= hw_max,
{
    assert(0 <= hw_max * mode_val) by (nonlinear_arith)
        requires
            0 <= hw_max,
            0 <= mode_val,
    ;
    assert(hw_max * mode_val <= span * hw_max) by (nonlinear_arith)
        requires
            0 <= hw_max,
            0 <= mode_val <= span,
    ;
    lemma_round_div_bounds(hw_max * mode_val, span);
    lemma_round_div_le(hw_max * mode_val, span, hw_max);
}

/// Round-trip error bound: converting a hardware value to a mode value and
/// back moves it by at most `ceil(hw_max / span)` hardware units. The
/// mapping is lossy for spans below the hardware maximum, but never by more
/// than one unit of mode resolution.
pub proof fn lemma_round_trip_bound(hw_max: int, span: int, v: int)
    requires
        0 < hw_max,
        0 < span,
        0 <= v <= hw_max,
    ensures
        to_hardware_value(hw_max, span, to_mode_value(hw_max, span, v)) - v
            <= ceil_div(hw_max, span),
        v - to_hardware_value(hw_max, span, to_mode_value(hw_max, span, v))
            <= ceil_div(hw_max, span),
{
    let w: int = to_mode_value(hw_max, span, v);
    let h: int = to_hardware_value(hw_max, span, w);
    let c: int = ceil_div(hw_max, span);

    assert(0 <= v * span) by (nonlinear_arith)
        requires
            0 <= v,
            0 < span,
    ;
    lemma_round_div_bounds(v * span, hw_max);
    assert(0 <= hw_max * w) by (nonlinear_arith)
        requires
            0 < hw_max,
            0 <= w,
    ;
    lemma_round_div_bounds(hw_max * w, span);

    // The ceiling satisfies `span * c >= hw_max` and `c >= 1`.
    lemma_fundamental_div_mod(hw_max + span - 1, span);
    lemma_mod_division_less_than_divisor(hw_max + span - 1, span);
    assert(hw_max <= span * c);
    if c <= 0 {
        assert(span * c <= 0) by (nonlinear_arith)
            requires
                0 < span,
                c <= 0,
        ;
        assert(false);
    }
    assert(span <= span * c) by (nonlinear_arith)
        requires
            0 < span,
            1 <= c,
    ;

    // Chain the two half-unit bounds through the shared term `hw_max * w`.
    assert(2 * hw_max * w == 2 * (hw_max * w)) by (nonlinear_arith);
    assert(2 * hw_max * v == 2 * (hw_max * v)) by (nonlinear_arith);
    assert(2 * span * h <= 2 * (v * span) + hw_max + span);
    assert(2 * (v * span) - hw_max - span < 2 * span * h);

    assert(h - v <= c) by (nonlinear_arith)
        requires
            0 < span,
            2 * span * h <= 2 * (v * span) + 2 * (span * c),
    ;
    assert(v - h <= c) by (nonlinear_arith)
        requires
            0 < span,
            2 * (v * span) - 2 * (span * c) < 2 * span * h,
    ;
}

/// Convert a hardware value to the active mode's scale.
///
/// With `step == max` this is the identity mapping (see
/// `lemma_absolute_identity`); with `step == 100` the result is a
/// percentage.
pub fn absolute_to_steps(max: u32, step: u32, val: u32) -> (r: u32)
    requires
        max > 0,
        val <= max,
    ensures
        r == to_mode_value(max as int, step as int, val as int),
        r <= step,
{
    proof {
        lemma_mul_upper_bound(val as int, u32::MAX as int, step as int, u32::MAX as int);
        lemma_to_mode_value_in_range(max as int, step as int, val as int);
    }
    let prod: u128 = (val as u128) * (step as u128);
    let num: u128 = 2 * prod + (max as u128);
    let den: u128 = 2 * (max as u128);
    let q: u128 = num / den;
    proof {
        assert(q as int == to_mode_value(max as int, step as int, val as int));
    }
    q as u32
}

/// Convert a value on the active mode's scale back to a hardware value.
pub fn steps_to_absolute(max: u32, steps: u32, val: u32) -> (r: u32)
    requires
        max > 0,
        steps > 0,
        val <= steps,
    ensures
        r == to_hardware_value(max as int, steps as int, val as int),
        r <= max,
{
    proof {
        lemma_mul_upper_bound(max as int, u32::MAX as int, val as int, u32::MAX as int);
        lemma_to_hardware_value_in_range(max as int, steps as int, val as int);
    }
    let prod: u128 = (max as u128) * (val as u128);
    let num: u128 = 2 * prod + (steps as u128);
    let den: u128 = 2 * (steps as u128);
    let q: u128 = num / den;
    proof {
        assert(q as int == to_hardware_value(max as int, steps as int, val as int));
    }
    q as u32
}

/// The conversion used by absolute mode: the hardware value is already the
/// mode value, so both directions return `val` unchanged.
pub fn identity(_max: u32, _steps: u32, val: u32) -> (r: u32)
    ensures
        r == val,
{
    val
}

} // verus!
