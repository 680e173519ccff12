//! Saturating fixed-point arithmetic in milli-units.
//!
//! An amount is an `i64` counting thousandths: `1500` stands for `1.5`.
//! Multiplicative factors are also milli-scaled, so applying a factor `f`
//! to an amount `a` yields `a * f / 1000`, rounded toward negative
//! infinity and saturated into `[-MAX_AMOUNT, MAX_AMOUNT]`.

use vstd::prelude::*;

verus! {

/// Milli-units per whole unit: `1000` stands for `1.0`.
pub const SCALE: i64 = 1000;

/// One hundred percent expressed in milli-percent.
pub const FULL_PERCENT: i64 = 100_000;

/// Largest magnitude an amount may take, in milli-units (a trillion units).
pub const MAX_AMOUNT: i64 = 1_000_000_000_000_000;

/// Saturate an unbounded mathematical value into the engine's range.
pub open spec fn clamp_amount(x: int) -> int {
    if x > MAX_AMOUNT as int {
        MAX_AMOUNT as int
    } else if x < -(MAX_AMOUNT as int) {
        -(MAX_AMOUNT as int)
    } else {
        x
    }
}

/// `a * b / d` over unbounded integers (rounding toward negative
/// infinity), saturated into the engine's range.
pub open spec fn muldiv(a: int, b: int, d: int) -> int
    recommends
        d > 0,
{
    clamp_amount((a * b) / d)
}

/// Apply a milli-scaled factor: `scaled(a, f) == a * f / 1000`, saturated.
pub open spec fn scaled(a: int, f: int) -> int {
    muldiv(a, f, SCALE as int)
}

/// Saturating sum of two amounts.
pub open spec fn sat_add_spec(a: int, b: int) -> int {
    clamp_amount(a + b)
}

/// Smaller of two values.
pub open spec fn min_spec(a: int, b: int) -> int {
    if a < b {
        a
    } else {
        b
    }
}

/// Larger of two values.
pub open spec fn max_spec(a: int, b: int) -> int {
    if a > b {
        a
    } else {
        b
    }
}

/// Clamp `x` into `[lo, hi]`.
pub open spec fn clamp_spec(x: int, lo: int, hi: int) -> int
    recommends
        lo <= hi,
{
    if x < lo {
        lo
    } else if x > hi {
        hi
    } else {
        x
    }
}

/// Saturate a wide intermediate into an `i64` amount.
pub(crate) fn clamp_i128(q: i128) -> (r: i64)
    ensures
        r as int == clamp_amount(q as int),
{
    if q > MAX_AMOUNT as i128 {
        MAX_AMOUNT
    } else if q < -MAX_AMOUNT as i128 {
        -MAX_AMOUNT
    } else {
        q as i64
    }
}

/// Division rounding toward negative infinity, on wide intermediates.
pub(crate) fn div_floor_i128(p: i128, d: i128) -> (r: i128)
    requires
        0 < d,
        (i128::MIN as int) + (d as int) < (p as int),
    ensures
        r as int == p as int / d as int,
{
    if p >= 0 {
        let q: i128 = p / d;
        assert(q == p as int / d as int);
        q
    } else {
        let m: i128 = -p;
        let q: i128 = (m + (d - 1)) / d;
        assert(-(q as int) == p as int / d as int) by (nonlinear_arith)
            requires
                m == -(p as int),
                p < 0,
                d > 0,
                q == (m + (d - 1)) as int / d as int,
        ;
        -q
    }
}

/// Saturating `a * b / d` with floor rounding.
pub fn sat_muldiv(a: i64, b: i64, d: i64) -> (r: i64)
    requires
        0 < d,
    ensures
        r as int == muldiv(a as int, b as int, d as int),
{
    proof {
        assert((a as int) * (b as int) <= (i64::MIN as int) * (i64::MIN as int) && -((i64::MIN
            as int) * (i64::MIN as int)) <= (a as int) * (b as int)) by (nonlinear_arith)
            requires
                i64::MIN as int <= a as int <= i64::MAX as int,
                i64::MIN as int <= b as int <= i64::MAX as int,
        ;
    }
    let p: i128 = (a as i128) * (b as i128);
    let q: i128 = div_floor_i128(p, d as i128);
    clamp_i128(q)
}

/// Saturating application of a milli-scaled factor.
pub fn sat_scaled(a: i64, f: i64) -> (r: i64)
    ensures
        r as int == scaled(a as int, f as int),
{
    sat_muldiv(a, f, SCALE)
}

/// `a` scaled by the factor `1 + m` (with `m` a milli fraction), saturated.
pub open spec fn factor_applied(a: int, m: int) -> int {
    muldiv(a, SCALE as int + m, SCALE as int)
}

/// Saturating application of the factor `1 + m`, where `m` is a milli
/// fraction (so `200` stands for a 20% bonus, `-200` for a 20% penalty).
pub fn sat_factor(a: i64, m: i64) -> (r: i64)
    ensures
        r as int == factor_applied(a as int, m as int),
{
    let f: i128 = (SCALE as i128) + (m as i128);
    proof {
        assert((a as int) * (f as int) <= (i64::MIN as int) * (i64::MIN as int) - 1000 * (i64::MIN
            as int) && (i64::MIN as int) * (i64::MIN as int) * -1 + 1000 * (i64::MIN as int) <= (
        a as int) * (f as int)) by (nonlinear_arith)
            requires
                i64::MIN as int <= a as int <= i64::MAX as int,
                1000 + i64::MIN as int <= f as int <= 1000 + i64::MAX as int,
        ;
    }
    let p: i128 = (a as i128) * f;
    let q: i128 = div_floor_i128(p, SCALE as i128);
    clamp_i128(q)
}

/// Saturating product of two amounts.
pub fn sat_mul(a: i64, b: i64) -> (r: i64)
    ensures
        r as int == clamp_amount(a as int * b as int),
{
    proof {
        assert((a as int) * (b as int) <= (i64::MIN as int) * (i64::MIN as int) && -((i64::MIN
            as int) * (i64::MIN as int)) <= (a as int) * (b as int)) by (nonlinear_arith)
            requires
                i64::MIN as int <= a as int <= i64::MAX as int,
                i64::MIN as int <= b as int <= i64::MAX as int,
        ;
    }
    clamp_i128((a as i128) * (b as i128))
}

/// Saturating addition of two amounts.
pub fn sat_add(a: i64, b: i64) -> (r: i64)
    ensures
        r as int == sat_add_spec(a as int, b as int),
{
    clamp_i128((a as i128) + (b as i128))
}

/// Saturating subtraction of two amounts.
pub fn sat_sub(a: i64, b: i64) -> (r: i64)
    ensures
        r as int == clamp_amount(a - b),
{
    clamp_i128((a as i128) - (b as i128))
}

/// Saturate an unbounded value into an `i64`-sized amount, as an `i64`.
pub open spec fn sat64(x: int) -> i64 {
    clamp_amount(x) as i64
}

/// Floor division of an amount by a positive constant.
pub fn divc_floor(v: i64, c: i64) -> (r: i64)
    requires
        0 < c,
    ensures
        r as int == v as int / c as int,
{
    let q: i128 = div_floor_i128(v as i128, c as i128);
    proof {
        let vi = v as int;
        let ci = c as int;
        vstd::arithmetic::div_mod::lemma_fundamental_div_mod(vi, ci);
        vstd::arithmetic::div_mod::lemma_mod_bound(vi, ci);
        if vi >= 0 {
            vstd::arithmetic::div_mod::lemma_div_nonincreasing(vi, ci);
            vstd::arithmetic::div_mod::lemma_div_pos_is_pos(vi, ci);
        } else {
            assert(vi / ci >= vi) by (nonlinear_arith)
                requires
                    ci >= 1,
                    vi < 0,
                    vi == ci * (vi / ci) + (vi % ci),
                    0 <= vi % ci < ci,
            ;
            assert(vi / ci <= 0) by (nonlinear_arith)
                requires
                    ci >= 1,
                    vi < 0,
                    vi == ci * (vi / ci) + (vi % ci),
                    0 <= vi % ci < ci,
            ;
        }
    }
    q as i64
}

/// Smaller of two amounts.
pub fn min64(a: i64, b: i64) -> (r: i64)
    ensures
        r as int == min_spec(a as int, b as int),
{
    if a < b {
        a
    } else {
        b
    }
}

/// Larger of two amounts.
pub fn max64(a: i64, b: i64) -> (r: i64)
    ensures
        r as int == max_spec(a as int, b as int),
{
    if a > b {
        a
    } else {
        b
    }
}

/// Clamp an amount into `[lo, hi]`.
pub fn clamp64(x: i64, lo: i64, hi: i64) -> (r: i64)
    requires
        lo <= hi,
    ensures
        r as int == clamp_spec(x as int, lo as int, hi as int),
{
    if x < lo {
        lo
    } else if x > hi {
        hi
    } else {
        x
    }
}

} // verus!
