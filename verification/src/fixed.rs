//! Signed fixed-point arithmetic in milli-units.
//!
//! A value `a: i64` stands for the real number `a / 1000`. Every operation
//! clips its result to `[-FP_MAX, FP_MAX]`, the fixed-point counterpart of
//! keeping a floating-point value finite, so the operations are total and
//! closed over well-formed values.

use vstd::prelude::*;

verus! {

/// Number of raw steps per whole unit.
pub const FP_SCALE: i64 = 1000;

/// Largest well-formed raw magnitude (one thousand million whole units).
pub const FP_MAX: i64 = 1_000_000_000_000_000;

/// A raw value is well formed when its magnitude is at most `FP_MAX`.
pub open spec fn fp_ok(a: int) -> bool {
    -(FP_MAX as int) <= a <= FP_MAX as int
}

/// Clip a mathematical result back into the well-formed range.
pub open spec fn fp_clip(a: int) -> int {
    if a > FP_MAX as int {
        FP_MAX as int
    } else if a < -(FP_MAX as int) {
        -(FP_MAX as int)
    } else {
        a
    }
}

/// Division that truncates toward zero, as the machine division does.
pub open spec fn div_trunc(a: int, d: int) -> int
    recommends
        d > 0,
{
    if a >= 0 {
        a / d
    } else {
        -((-a) / d)
    }
}

/// Fixed-point sum.
pub open spec fn fp_add_s(a: int, b: int) -> int {
    fp_clip(a + b)
}

/// Fixed-point difference.
pub open spec fn fp_sub_s(a: int, b: int) -> int {
    fp_clip(a - b)
}

/// Fixed-point product: the raw product is rescaled by one step, truncating
/// toward zero.
pub open spec fn fp_mul_s(a: int, b: int) -> int {
    fp_clip(div_trunc(a * b, FP_SCALE as int))
}

pub fn fp_add(a: i64, b: i64) -> (r: i64)
    requires
        fp_ok(a as int),
        fp_ok(b as int),
    ensures
        r as int == fp_add_s(a as int, b as int),
        fp_ok(r as int),
{
    let s = a + b;
    if s > FP_MAX {
        FP_MAX
    } else if s < -FP_MAX {
        -FP_MAX
    } else {
        s
    }
}

pub fn fp_sub(a: i64, b: i64) -> (r: i64)
    requires
        fp_ok(a as int),
        fp_ok(b as int),
    ensures
        r as int == fp_sub_s(a as int, b as int),
        fp_ok(r as int),
{
    let s = a - b;
    if s > FP_MAX {
        FP_MAX
    } else if s < -FP_MAX {
        -FP_MAX
    } else {
        s
    }
}

pub fn fp_mul(a: i64, b: i64) -> (r: i64)
    requires
        fp_ok(a as int),
        fp_ok(b as int),
    ensures
        r as int == fp_mul_s(a as int, b as int),
        fp_ok(r as int),
{
    let neg = (a < 0) != (b < 0);
    let aa: u128 = (if a < 0 { -a } else { a }) as u128;
    let bb: u128 = (if b < 0 { -b } else { b }) as u128;
    proof {
        let ai = a as int;
        let bi = b as int;
        assert(aa as int * bb as int == (if ai * bi >= 0 { ai * bi } else { -(ai * bi) }))
            by (nonlinear_arith)
            requires
                aa as int == (if ai < 0 { -ai } else { ai }),
                bb as int == (if bi < 0 { -bi } else { bi }),
        ;
        assert(aa as int * bb as int <= FP_MAX as int * FP_MAX as int) by (nonlinear_arith)
            requires
                0 <= aa as int <= FP_MAX as int,
                0 <= bb as int <= FP_MAX as int,
        ;
    }
    let p = aa * bb;
    let q = p / (FP_SCALE as u128);
    let qc: u128 = if q > FP_MAX as u128 {
        FP_MAX as u128
    } else {
        q
    };
    let m = qc as i64;
    let r = if neg { -m } else { m };
    proof {
        let ab = a as int * b as int;
        if ab >= 0 {
            assert(q == ab / 1000);
            assert(!neg || ab == 0) by (nonlinear_arith)
                requires
                    neg == ((a < 0) != (b < 0)),
                    ab == a as int * b as int,
                    ab >= 0,
            ;
            assert(r as int == fp_clip(div_trunc(ab, 1000)));
        } else {
            assert(q == (-ab) / 1000);
            assert(neg) by (nonlinear_arith)
                requires
                    neg == ((a < 0) != (b < 0)),
                    ab == a as int * b as int,
                    ab < 0,
            ;
            assert(div_trunc(ab, 1000) == -q);
            assert(r as int == fp_clip(div_trunc(ab, 1000)));
        }
    }
    r
}

/// Rescale a raw value to whole units, truncating toward zero and saturating
/// into the `i32` range: the conversion from a projected coordinate to a
/// pixel coordinate, and from an age to a disk radius.
pub open spec fn units_sat_s(a: int, d: int) -> int
    recommends
        d > 0,
{
    let t = div_trunc(a, d);
    if t > i32::MAX as int {
        i32::MAX as int
    } else if t < i32::MIN as int {
        i32::MIN as int
    } else {
        t
    }
}

pub fn units_sat(a: i64, d: u32) -> (r: i32)
    requires
        fp_ok(a as int),
        d >= 1,
    ensures
        r as int == units_sat_s(a as int, d as int),
{
    let t: i64 = if a >= 0 {
        ((a as u64) / (d as u64)) as i64
    } else {
        -((((-a) as u64) / (d as u64)) as i64)
    };
    if t > i32::MAX as i64 {
        i32::MAX
    } else if t < i32::MIN as i64 {
        i32::MIN
    } else {
        t as i32
    }
}

} // verus!
