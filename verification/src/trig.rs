//! Fixed-point trigonometry for heading rotation.
//!
//! Angles are integers in milli-degrees. The sine uses Bhaskara I's
//! rational approximation, which needs only integer arithmetic, is exact at
//! 0, 90 and 180 degrees, and stays within about 0.2% of the true sine in
//! between; headings rotated with it are clamped back into the unit box.
use vstd::prelude::*;
use crate::geometry::FP_ONE;
use crate::geometry::Vec2;

verus! {

/// Milli-degrees in a full turn.
pub const FULL_TURN_MDEG: i64 = 360000;

/// Bhaskara I's sine approximation over a half turn, scaled by `FP_ONE`:
/// for `a` in `[0, 180000]` milli-degrees this is
/// `4a(180000 - a) * FP_ONE / (40500000000 - a(180000 - a))`,
/// a value in `[0, FP_ONE]`.
pub open spec fn spec_half_sin(a: int) -> int {
    (4 * (a * (180000 - a)) * 65536) / (40500000000 - a * (180000 - a))
}

/// Fixed-point sine of an angle in `[0, 360000)` milli-degrees.
pub open spec fn spec_sin(a: int) -> int {
    if a <= 180000 {
        spec_half_sin(a)
    } else {
        -spec_half_sin(a - 180000)
    }
}

/// Fixed-point cosine of an angle in `[0, 360000)` milli-degrees, as the
/// sine shifted by a quarter turn.
pub open spec fn spec_cos(a: int) -> int {
    if a < 270000 {
        spec_sin(a + 90000)
    } else {
        spec_sin(a - 270000)
    }
}

/// Division by `FP_ONE` rounding toward zero, the scale-restoring step
/// after a fixed-point product.
pub open spec fn spec_scale_down(p: int) -> int {
    if p >= 0 {
        p / 65536
    } else {
        -((-p) / 65536)
    }
}

/// Clamping into `[-FP_ONE, FP_ONE]`, which keeps rotated headings inside
/// the unit box despite the approximation error of the sine.
pub open spec fn spec_clamp_unit(v: int) -> int {
    if v < -65536 {
        -65536
    } else if v > 65536 {
        65536
    } else {
        v
    }
}

/// Rotation of `v` by `a` milli-degrees: the standard 2D rotation matrix in
/// fixed point, each component scaled back down and clamped to the unit box.
pub open spec fn spec_rotated(v: Vec2, a: int) -> Vec2 {
    Vec2 {
        x: spec_clamp_unit(
            spec_scale_down(v.x * spec_cos(a) - v.y * spec_sin(a)),
        ) as i64,
        y: spec_clamp_unit(
            spec_scale_down(v.x * spec_sin(a) + v.y * spec_cos(a)),
        ) as i64,
    }
}

fn half_sin(a: i64) -> (r: i64)
    requires
        0 <= a <= 180000,
    ensures
        r == spec_half_sin(a as int),
        0 <= r <= FP_ONE,
{
    let au: u64 = a as u64;
    proof {
        assert(au * (180000 - au) <= 8100000000) by (nonlinear_arith)
            requires
                au <= 180000,
        ;
    }
    let p: u64 = au * (180000 - au);
    let num: u64 = 4 * p * 65536;
    let den: u64 = 40500000000 - p;
    proof {
        assert(num / den <= 65536) by (nonlinear_arith)
            requires
                num <= den * 65536,
                den >= 1,
        ;
    }
    let q: u64 = num / den;
    q as i64
}

/// Fixed-point sine of a normalized angle.
pub fn sin_fp(a: i64) -> (r: i64)
    requires
        0 <= a < 360000,
    ensures
        r == spec_sin(a as int),
        -FP_ONE <= r <= FP_ONE,
{
    if a <= 180000 {
        half_sin(a)
    } else {
        -half_sin(a - 180000)
    }
}

/// Fixed-point cosine of a normalized angle.
pub fn cos_fp(a: i64) -> (r: i64)
    requires
        0 <= a < 360000,
    ensures
        r == spec_cos(a as int),
        -FP_ONE <= r <= FP_ONE,
{
    if a < 270000 {
        sin_fp(a + 90000)
    } else {
        sin_fp(a - 270000)
    }
}

fn scale_down(p: i64) -> (r: i64)
    requires
        i64::MIN < p,
    ensures
        r == spec_scale_down(p as int),
{
    if p >= 0 {
        ((p as u64) / 65536) as i64
    } else {
        let m: u64 = (-p) as u64;
        -((m / 65536) as i64)
    }
}

fn clamp_unit(v: i64) -> (r: i64)
    ensures
        r == spec_clamp_unit(v as int),
{
    if v < -FP_ONE {
        -FP_ONE
    } else if v > FP_ONE {
        FP_ONE
    } else {
        v
    }
}

/// Rotates a heading by `a` milli-degrees counterclockwise (in the
/// mathematical orientation of the axes).
pub fn rotated(v: Vec2, a: i64) -> (r: Vec2)
    requires
        v.unit_box(),
        0 <= a < 360000,
    ensures
        r == spec_rotated(v, a as int),
        r.unit_box(),
{
    let c: i64 = cos_fp(a);
    let s: i64 = sin_fp(a);
    proof {
        assert(-0x1_0000_0000 <= v.x * c <= 0x1_0000_0000 && -0x1_0000_0000 <= v.y * s
            <= 0x1_0000_0000 && -0x1_0000_0000 <= v.x * s <= 0x1_0000_0000 && -0x1_0000_0000 <= v.y
            * c <= 0x1_0000_0000) by (nonlinear_arith)
            requires
                -65536 <= v.x <= 65536,
                -65536 <= v.y <= 65536,
                -65536 <= c <= 65536,
                -65536 <= s <= 65536,
        ;
    }
    let xr: i64 = v.x * c - v.y * s;
    let yr: i64 = v.x * s + v.y * c;
    Vec2 { x: clamp_unit(scale_down(xr)), y: clamp_unit(scale_down(yr)) }
}

} // verus!
