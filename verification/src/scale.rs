//! Fixed-point scale factors and the rounding rule for coordinate scaling.
//!
//! A scale factor is kept in thousandths (`millis`), so `1000` is a scale of
//! one. Positions and sizes are multiplied by the factor and rounded to the
//! nearest integer, halves away from zero; font point sizes are themselves
//! kept in thousandths and scaled at that precision, so they effectively
//! scale linearly.

use vstd::prelude::*;

verus! {

/// One thousandth steps per unit of scale.
pub const SCALE_UNIT: u32 = 1000;

/// A scale factor in thousandths: `millis == 1000` is a scale of exactly one.
#[derive(Debug, Clone, Copy, PartialEq, Eq, Structural)]
pub struct Scale {
    pub millis: u32,
}

impl Scale {
    /// Builds a scale factor from thousandths. A zero factor is excluded:
    /// inbound events are divided by the current scale.
    pub fn from_millis(millis: u32) -> (r: Self)
        requires
            millis >= 1,
        ensures
            r.millis == millis,
    {
        Self { millis }
    }

    /// The identity scale.
    pub fn one() -> (r: Self)
        ensures
            r.millis == SCALE_UNIT,
    {
        Self { millis: 1000 }
    }

    /// True exactly when this is the identity scale, for which every
    /// transform must be a true no-op.
    pub fn is_one(&self) -> (r: bool)
        ensures
            r == (self.millis == SCALE_UNIT),
    {
        self.millis == 1000
    }
}

/// Division rounded to the nearest integer, halves away from zero.
/// `d` must be positive.
pub open spec fn round_div_nearest(n: int, d: int) -> int {
    if n >= 0 {
        (n + d / 2) / d
    } else {
        -((-n + d / 2) / d)
    }
}

/// `v` multiplied by the scale, rounded to the nearest integer.
pub open spec fn spec_scale_int(v: int, millis: int) -> int {
    round_div_nearest(v * millis, SCALE_UNIT as int)
}

/// `v` divided by the scale, rounded to the nearest integer. Used for
/// inbound physical-space values.
pub open spec fn spec_descale_int(v: int, millis: int) -> int {
    round_div_nearest(v * (SCALE_UNIT as int), millis)
}

/// Clamps an integer into the `i32` range, as a saturating conversion does.
pub open spec fn clamp_i32(v: int) -> int {
    if v < i32::MIN as int {
        i32::MIN as int
    } else if v > i32::MAX as int {
        i32::MAX as int
    } else {
        v
    }
}

/// Clamps an integer into the `u32` range, as a saturating conversion does.
pub open spec fn clamp_u32(v: int) -> int {
    if v < 0 {
        0
    } else if v > u32::MAX as int {
        u32::MAX as int
    } else {
        v
    }
}

/// A product of an `i32`-range value and a `u32`-range value stays well
/// inside the range that `round_div_nearest_i128` accepts.
proof fn lemma_mul_in_scale_range(v: int, m: int)
    requires
        -0x8000_0000 <= v <= 0xFFFF_FFFF,
        0 <= m <= 0xFFFF_FFFF,
    ensures
        -0x7000_0000_0000_0000_0000_0000 <= v * m <= 0x7000_0000_0000_0000_0000_0000,
{
    assert(-0x7000_0000_0000_0000_0000_0000 <= v * m <= 0x7000_0000_0000_0000_0000_0000)
        by (nonlinear_arith)
        requires
            -0x8000_0000 <= v <= 0xFFFF_FFFF,
            0 <= m <= 0xFFFF_FFFF,
    ;
}

/// Rounded division on machine integers, halves away from zero.
fn round_div_nearest_i128(n: i128, d: i128) -> (r: i128)
    requires
        d >= 1,
        -0x7000_0000_0000_0000_0000_0000 <= n <= 0x7000_0000_0000_0000_0000_0000,
    ensures
        r == round_div_nearest(n as int, d as int),
{
    if n >= 0 {
        (n + d / 2) / d
    } else {
        -((-n + d / 2) / d)
    }
}

/// Scales a signed coordinate by `scale`, rounding to the nearest integer
/// and saturating at the `i32` range.
pub fn scale_i32(v: i32, scale: Scale) -> (r: i32)
    ensures
        r == clamp_i32(spec_scale_int(v as int, scale.millis as int)),
{
    proof {
        lemma_mul_in_scale_range(v as int, scale.millis as int);
    }
    let wide: i128 = (v as i128) * (scale.millis as i128);
    let rounded: i128 = round_div_nearest_i128(wide, 1000);
    saturate_i32(rounded)
}

/// Scales an unsigned size by `scale`, rounding to the nearest integer and
/// saturating at the `u32` range.
pub fn scale_u32(v: u32, scale: Scale) -> (r: u32)
    ensures
        r == clamp_u32(spec_scale_int(v as int, scale.millis as int)),
{
    proof {
        lemma_mul_in_scale_range(v as int, scale.millis as int);
    }
    let wide: i128 = (v as i128) * (scale.millis as i128);
    let rounded: i128 = round_div_nearest_i128(wide, 1000);
    saturate_u32(rounded)
}

/// Divides a signed physical-space coordinate by `scale`, rounding to the
/// nearest integer and saturating at the `i32` range.
pub fn descale_i32(v: i32, scale: Scale) -> (r: i32)
    requires
        scale.millis >= 1,
    ensures
        r == clamp_i32(spec_descale_int(v as int, scale.millis as int)),
{
    let wide: i128 = (v as i128) * 1000;
    let rounded: i128 = round_div_nearest_i128(wide, scale.millis as i128);
    saturate_i32(rounded)
}

/// Divides an unsigned physical-space size by `scale`, rounding to the
/// nearest integer and saturating at the `u32` range.
pub fn descale_u32(v: u32, scale: Scale) -> (r: u32)
    requires
        scale.millis >= 1,
    ensures
        r == clamp_u32(spec_descale_int(v as int, scale.millis as int)),
{
    let wide: i128 = (v as i128) * 1000;
    let rounded: i128 = round_div_nearest_i128(wide, scale.millis as i128);
    saturate_u32(rounded)
}

fn saturate_i32(v: i128) -> (r: i32)
    ensures
        r == clamp_i32(v as int),
{
    if v < -0x8000_0000 {
        -0x8000_0000
    } else if v > 0x7FFF_FFFF {
        0x7FFF_FFFF
    } else {
        v as i32
    }
}

fn saturate_u32(v: i128) -> (r: u32)
    ensures
        r == clamp_u32(v as int),
{
    if v < 0 {
        0
    } else if v > 0xFFFF_FFFF {
        0xFFFF_FFFF
    } else {
        v as u32
    }
}

} // verus!
