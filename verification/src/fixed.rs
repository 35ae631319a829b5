//! Fixed-point arithmetic for the simulation.
//!
//! Positions and speeds are whole numbers of thousandths of a cell,
//! angles are thousandths of a radian, and a random fraction is a whole
//! number of 2^24ths. Sums that leave the range of `i64` stop at its
//! ends.

use vstd::prelude::*;

verus! {

/// Thousandths in one cell.
pub const MILLI: i64 = 1000;

/// The denominator of a random fraction: a draw `d` stands for `d / UNIT`.
pub const UNIT: u32 = 16_777_216;

/// Half a turn in thousandths of a radian.
pub const PI_MILLI: i64 = 3142;

/// A full turn in thousandths of a radian.
pub const TAU_MILLI: i64 = 6284;

/// `v`, or the end of the range of `i64` that it lies beyond.
pub open spec fn clamp_i64(v: int) -> int {
    if v < i64::MIN {
        i64::MIN as int
    } else if v > i64::MAX {
        i64::MAX as int
    } else {
        v
    }
}

/// `a - b`, or nothing where `b` is the larger.
pub open spec fn less(a: int, b: int) -> int {
    if a >= b {
        a - b
    } else {
        0
    }
}

/// `a / b` rounded towards zero, for a positive `b`.
pub open spec fn trunc_div(a: int, b: int) -> int {
    if a >= 0 {
        a / b
    } else {
        -((-a) / b)
    }
}

/// The sum of `a` and `b`, stopped at the ends of the range.
pub open spec fn plus(a: i64, b: i64) -> i64 {
    clamp_i64(a + b) as i64
}

/// The difference of `a` and `b`, stopped at the ends of the range.
pub open spec fn minus(a: i64, b: i64) -> i64 {
    clamp_i64(a - b) as i64
}

/// The product of two numbers of thousandths, in thousandths.
pub open spec fn times(a: i64, b: i64) -> i64 {
    clamp_i64(trunc_div(a * b, 1000)) as i64
}

/// The sum of `a` and `b`, stopped at the ends of the range.
pub fn sat_add(a: i64, b: i64) -> (sum: i64)
    ensures
        sum == plus(a, b),
{
    match a.checked_add(b) {
        Some(v) => v,
        None => if b > 0 {
            i64::MAX
        } else {
            i64::MIN
        },
    }
}

/// The difference of `a` and `b`, stopped at the ends of the range.
pub fn sat_sub(a: i64, b: i64) -> (diff: i64)
    ensures
        diff == minus(a, b),
{
    match a.checked_sub(b) {
        Some(v) => v,
        None => if b < 0 {
            i64::MAX
        } else {
            i64::MIN
        },
    }
}

/// The product of two numbers of thousandths, in thousandths, rounded
/// towards zero and stopped at the ends of the range.
pub fn mul_milli(a: i64, b: i64) -> (product: i64)
    ensures
        product == times(a, b),
{
    assert(-0x4000_0000_0000_0000_0000_0000_0000_0000 <= a * b
        <= 0x4000_0000_0000_0000_0000_0000_0000_0000) by (nonlinear_arith)
        requires
            -0x8000_0000_0000_0000 <= a <= 0x7fff_ffff_ffff_ffff,
            -0x8000_0000_0000_0000 <= b <= 0x7fff_ffff_ffff_ffff,
    ;
    let wide: i128 = (a as i128) * (b as i128) / 1000;
    if wide > i64::MAX as i128 {
        i64::MAX
    } else if wide < i64::MIN as i128 {
        i64::MIN
    } else {
        wide as i64
    }
}

/// `v * num / den`, rounded towards zero and stopped at the ends of the
/// range.
pub open spec fn proportion(v: i64, num: i64, den: i64) -> i64 {
    clamp_i64(trunc_div(v * num, den as int)) as i64
}

/// `v * num / den` for a positive `den`, rounded towards zero and
/// stopped at the ends of the range.
pub fn ratio(v: i64, num: i64, den: i64) -> (part: i64)
    requires
        den > 0,
    ensures
        part == proportion(v, num, den),
{
    assert(-0x4000_0000_0000_0000_0000_0000_0000_0000 <= v * num
        <= 0x4000_0000_0000_0000_0000_0000_0000_0000) by (nonlinear_arith)
        requires
            -0x8000_0000_0000_0000 <= v <= 0x7fff_ffff_ffff_ffff,
            -0x8000_0000_0000_0000 <= num <= 0x7fff_ffff_ffff_ffff,
    ;
    let product: i128 = (v as i128) * (num as i128);
    let wide: i128 = product / (den as i128);
    if wide > i64::MAX as i128 {
        i64::MAX
    } else if wide < i64::MIN as i128 {
        i64::MIN
    } else {
        wide as i64
    }
}

/// The cell that a position in thousandths falls in, rounding towards
/// column or row zero.
pub open spec fn cell(pos: i64) -> i64 {
    trunc_div(pos as int, MILLI as int) as i64
}

/// The cell that a position in thousandths falls in, rounding towards
/// column or row zero.
pub fn cell_of(pos: i64) -> (c: i64)
    ensures
        c == cell(pos),
{
    pos / MILLI
}

/// `v` brought into the range of `u16`.
pub open spec fn clamp_u16(v: int) -> u16 {
    if v < 0 {
        0u16
    } else if v > 65535 {
        65535u16
    } else {
        v as u16
    }
}

/// `v` brought into the range of `u16`.
pub fn to_u16(v: i64) -> (out: u16)
    ensures
        out == clamp_u16(v as int),
{
    if v < 0 {
        0
    } else if v > 65535 {
        65535
    } else {
        v as u16
    }
}

/// The part `draw / UNIT` of `range`, rounded down.
pub open spec fn scaled(draw: u32, range: u32) -> i64 {
    ((draw * range) / (UNIT as int)) as i64
}

/// A part is never negative, never more than 256 times the range, and
/// for a draw below `UNIT` within the range.
pub proof fn lemma_scaled_bounds(draw: u32, range: u32)
    ensures
        0 <= scaled(draw, range) <= 256 * range,
        scaled(draw, range) == (draw * range) / (UNIT as int),
        draw < UNIT ==> scaled(draw, range) <= range,
        draw < UNIT && range > 0 ==> scaled(draw, range) < range,
{
    assert(0 <= draw * range <= 0x1_0000_0000 * range) by (nonlinear_arith)
        requires
            0 <= draw <= 0x1_0000_0000,
            0 <= range,
    ;
    if draw < UNIT {
        if range > 0 {
            assert(draw * range < 16_777_216 * range) by (nonlinear_arith)
                requires
                    0 <= draw < 16_777_216,
                    0 < range,
            ;
        }
    }
}

/// The part `draw / UNIT` of `range`, rounded down.
pub fn scale(draw: u32, range: u32) -> (part: i64)
    ensures
        part == scaled(draw, range),
        0 <= part <= 256 * range,
        draw < UNIT ==> part <= range,
        draw < UNIT && range > 0 ==> part < range,
{
    proof {
        lemma_scaled_bounds(draw, range);
    }
    let product: u64 = (draw as u64) * (range as u64);
    (product / 16_777_216) as i64
}

/// Whether a draw falls under `per_mille` thousandths, as that share of
/// all draws below `UNIT` does.
pub open spec fn hits(draw: u32, per_mille: u32) -> bool {
    draw * 1000 < per_mille * UNIT
}

/// Whether a draw falls under `per_mille` thousandths.
pub fn chance(draw: u32, per_mille: u32) -> (hit: bool)
    ensures
        hit == hits(draw, per_mille),
{
    (draw as u64) * 1000 < (per_mille as u64) * 16_777_216
}

/// The sine of an angle between nothing and half a turn, in thousandths:
/// the rational approximation `16 x (pi - x) / (5 pi^2 - 4 x (pi - x))`.
pub open spec fn half_wave(x: int) -> int {
    let p = x * (3142 - x);
    (16000 * p) / (49_360_820 - 4 * p)
}

/// The sine of an angle of any size, in thousandths.
pub open spec fn sine(angle: int) -> int {
    let r = angle % (TAU_MILLI as int);
    if r <= PI_MILLI {
        half_wave(r)
    } else {
        -half_wave(r - PI_MILLI)
    }
}

/// The approximation stays between minus one and one, and is never
/// negative within the first half turn.
pub proof fn lemma_half_wave_bounds(x: int)
    requires
        0 <= x <= 3142,
    ensures
        0 <= x * (3142 - x) <= 2_468_041,
        0 <= half_wave(x) <= 1000,
{
    assert(0 <= x * (3142 - x) <= 2_468_041) by (nonlinear_arith)
        requires
            0 <= x <= 3142,
    ;
    let p = x * (3142 - x);
    let d = 49_360_820 - 4 * p;
    assert(0 <= (16000 * p) / d <= 1000) by (nonlinear_arith)
        requires
            0 <= 16000 * p <= 1000 * d,
            d > 0,
    ;
}

/// The sine of any angle lies between minus one and one.
pub proof fn lemma_sine_bounds(angle: int)
    ensures
        -1000 <= sine(angle) <= 1000,
{
    let r = angle % 6284;
    if r <= 3142 {
        lemma_half_wave_bounds(r);
    } else {
        lemma_half_wave_bounds(r - 3142);
    }
}

fn half_wave_milli(x: i64) -> (s: i64)
    requires
        0 <= x <= 3142,
    ensures
        s == half_wave(x as int),
        0 <= s <= 1000,
{
    proof {
        lemma_half_wave_bounds(x as int);
    }
    let p: i64 = x * (3142 - x);
    (16000 * p) / (49_360_820 - 4 * p)
}

/// The sine of `angle`, both in thousandths.
pub open spec fn sin(angle: i64) -> i64 {
    sine(angle as int) as i64
}

/// The sine of `angle`, both in thousandths.
pub fn sin_milli(angle: i64) -> (s: i64)
    ensures
        s == sin(angle),
        s == sine(angle as int),
        -1000 <= s <= 1000,
{
    let t: i64 = angle % 6284;
    let r: i64 = if t < 0 {
        t + 6284
    } else {
        t
    };
    if r <= 3142 {
        half_wave_milli(r)
    } else {
        -half_wave_milli(r - 3142)
    }
}

/// The angle `step` on from `angle`, brought back by a full turn where
/// it has passed one.
pub open spec fn turned_on(angle: i64, step: i64) -> i64 {
    let sum = plus(angle, step);
    if sum > TAU_MILLI {
        (sum - TAU_MILLI) as i64
    } else {
        sum
    }
}

/// The angle `step` on from `angle`, brought back by a full turn where
/// it has passed one.
pub fn advance_angle(angle: i64, step: i64) -> (next: i64)
    ensures
        next == turned_on(angle, step),
{
    let sum = sat_add(angle, step);
    if sum > TAU_MILLI {
        sum - TAU_MILLI
    } else {
        sum
    }
}

/// An angle in thousandths of a degree, in thousandths of a radian,
/// rounded towards zero.
pub open spec fn radians(degrees_milli: i64) -> i64 {
    trunc_div(degrees_milli * 3142, 180_000) as i64
}

/// An angle in thousandths of a degree, in thousandths of a radian,
/// rounded towards zero.
pub fn radians_milli(degrees_milli: i64) -> (r: i64)
    ensures
        r == radians(degrees_milli),
{
    let wide: i128 = (degrees_milli as i128) * 3142 / 180_000;
    wide as i64
}

} // verus!
