//! Fixed-point arithmetic in millionths.
//!
//! Every fractional quantity of the library (multipliers, impact scores,
//! ratings, weights, probabilities) is an integer count of millionths:
//! `1_500_000` stands for 1.5. Quotients are rounded toward zero, so a value
//! and its negation always round to opposite results.

use vstd::prelude::*;

verus! {

/// The integer that stands for 1.0.
pub const SCALE: i64 = 1_000_000;

/// The quotient of `a` by a positive `d`, rounded toward zero.
pub open spec fn trunc_div(a: int, d: int) -> int
    recommends
        d > 0,
{
    if a >= 0 {
        a / d
    } else {
        -((-a) / d)
    }
}

/// The magnitude of `a`.
pub open spec fn magnitude(a: int) -> int {
    if a >= 0 {
        a
    } else {
        -a
    }
}

/// `x` limited to the band from `lo` to `hi`.
pub open spec fn clamp_to(x: int, lo: int, hi: int) -> int
    recommends
        lo <= hi,
{
    if x < lo {
        lo
    } else if x > hi {
        hi
    } else {
        x
    }
}

/// A rounded quotient is no larger in magnitude than the exact one, and it
/// keeps the sign of the dividend.
pub proof fn lemma_trunc_div_bounds(a: int, d: int)
    requires
        d > 0,
    ensures
        a >= 0 ==> 0 <= trunc_div(a, d) <= a,
        a <= 0 ==> a <= trunc_div(a, d) <= 0,
        magnitude(trunc_div(a, d)) <= magnitude(a),
        trunc_div(-a, d) == -trunc_div(a, d),
{
    let m = magnitude(a);
    assert(0 <= m / d <= m) by (nonlinear_arith)
        requires
            m >= 0,
            d > 0,
    ;
}

/// Rounding toward zero keeps the order of the dividends.
pub proof fn lemma_trunc_div_monotonic(a: int, b: int, d: int)
    requires
        d > 0,
        a <= b,
    ensures
        trunc_div(a, d) <= trunc_div(b, d),
{
    lemma_trunc_div_bounds(a, d);
    lemma_trunc_div_bounds(b, d);
    if a >= 0 {
        assert(a / d <= b / d) by (nonlinear_arith)
            requires
                0 <= a <= b,
                d > 0,
        ;
    } else if b < 0 {
        assert((-b) / d <= (-a) / d) by (nonlinear_arith)
            requires
                0 <= -b <= -a,
                d > 0,
        ;
    }
}

/// The quotient of `a` by a positive `d`, rounded toward zero.
pub fn div_toward_zero(a: i128, d: i128) -> (q: i128)
    requires
        d > 0,
        a > i128::MIN,
    ensures
        q == trunc_div(a as int, d as int),
{
    proof {
        lemma_trunc_div_bounds(a as int, d as int);
    }
    if a >= 0 {
        a / d
    } else {
        let m: i128 = -a;
        let q: i128 = m / d;
        -q
    }
}

/// The largest magnitude of a factor of [`times`]: a million.
pub const MAX_OPERAND: i64 = 1_000_000_000_000;

/// The product of two fixed-point numbers, rounded toward zero.
#[verifier::opaque]
pub open spec fn fmul(a: int, b: int) -> int {
    trunc_div(a * b, SCALE as int)
}

/// A product is bounded by the product of the bounds of its factors, and the
/// product of two factors that are not negative is not negative.
pub proof fn lemma_fmul_bound(a: int, b: int, a_max: int, b_max: int)
    requires
        magnitude(a) <= a_max,
        magnitude(b) <= b_max,
    ensures
        magnitude(fmul(a, b)) <= (a_max * b_max) / (SCALE as int),
        a >= 0 && b >= 0 ==> fmul(a, b) >= 0,
        a <= 0 && b <= 0 ==> fmul(a, b) >= 0,
        a <= 0 && b >= 0 ==> fmul(a, b) <= 0,
        a >= 0 && b <= 0 ==> fmul(a, b) <= 0,
        a == 0 || b == 0 ==> fmul(a, b) == 0,
        fmul(a, b) == fmul(b, a),
{
    reveal(fmul);
    let size = magnitude(a) * magnitude(b);
    assert(0 <= size <= a_max * b_max) by (nonlinear_arith)
        requires
            size == magnitude(a) * magnitude(b),
            0 <= magnitude(a) <= a_max,
            0 <= magnitude(b) <= b_max,
    ;
    assert(magnitude(a * b) == size) by (nonlinear_arith)
        requires
            size == magnitude(a) * magnitude(b),
    ;
    assert(a >= 0 && b >= 0 ==> a * b >= 0) by (nonlinear_arith);
    assert(a <= 0 && b <= 0 ==> a * b >= 0) by (nonlinear_arith);
    assert(a <= 0 && b >= 0 ==> a * b <= 0) by (nonlinear_arith);
    assert(a >= 0 && b <= 0 ==> a * b <= 0) by (nonlinear_arith);
    assert(a == 0 || b == 0 ==> a * b == 0) by (nonlinear_arith);
    assert(a * b == b * a) by (nonlinear_arith);
    lemma_trunc_div_bounds(a * b, SCALE as int);
    lemma_trunc_div_monotonic(size, a_max * b_max, SCALE as int);
}

/// Multiplying by 1.0 changes nothing.
pub proof fn lemma_fmul_unit(a: int)
    ensures
        fmul(a, SCALE as int) == a,
        fmul(SCALE as int, a) == a,
{
    reveal(fmul);
    assert((a * SCALE) / (SCALE as int) == a) by (nonlinear_arith);
    assert(((-a) * SCALE) / (SCALE as int) == -a) by (nonlinear_arith);
    assert(-(a * SCALE) == (-a) * SCALE) by (nonlinear_arith);
    assert(SCALE * a == a * SCALE) by (nonlinear_arith);
    assert(a >= 0 ==> a * SCALE >= 0) by (nonlinear_arith);
    assert(a < 0 ==> a * SCALE < 0) by (nonlinear_arith);
}

/// A product grows with its first factor where the second is not negative.
pub proof fn lemma_fmul_monotonic(a: int, b: int, c: int)
    requires
        a <= b,
        c >= 0,
    ensures
        fmul(a, c) <= fmul(b, c),
{
    reveal(fmul);
    assert(a * c <= b * c) by (nonlinear_arith)
        requires
            a <= b,
            c >= 0,
    ;
    lemma_trunc_div_monotonic(a * c, b * c, SCALE as int);
}

/// The product of two fixed-point numbers, rounded toward zero.
pub fn times(a: i64, b: i64) -> (product: i64)
    requires
        -MAX_OPERAND <= a <= MAX_OPERAND,
        -MAX_OPERAND <= b <= MAX_OPERAND,
    ensures
        product == fmul(a as int, b as int),
{
    proof {
        reveal(fmul);
        lemma_fmul_bound(a as int, b as int, MAX_OPERAND as int, MAX_OPERAND as int);
        assert(-(MAX_OPERAND * MAX_OPERAND) <= a * b <= MAX_OPERAND * MAX_OPERAND)
            by (nonlinear_arith)
            requires
                -MAX_OPERAND <= a <= MAX_OPERAND,
                -MAX_OPERAND <= b <= MAX_OPERAND,
        ;
    }
    let wide: i128 = (a as i128) * (b as i128);
    div_toward_zero(wide, SCALE as i128) as i64
}

/// The product of two fixed-point numbers of any size, rounded toward zero.
pub fn times_wide(a: i64, b: i64) -> (product: i128)
    ensures
        product == fmul(a as int, b as int),
        -0x800_0000_0000_0000_0000_0000_0000 <= product <= 0x800_0000_0000_0000_0000_0000_0000,
{
    proof {
        reveal(fmul);
        assert(-0x4000_0000_0000_0000_0000_0000_0000_0000 <= a * b
            <= 0x4000_0000_0000_0000_0000_0000_0000_0000) by (nonlinear_arith)
            requires
                -0x8000_0000_0000_0000 <= a <= 0x8000_0000_0000_0000,
                -0x8000_0000_0000_0000 <= b <= 0x8000_0000_0000_0000,
        ;
        lemma_trunc_div_bounds(a * b, SCALE as int);
        lemma_trunc_div_monotonic(a * b, 0x4000_0000_0000_0000_0000_0000_0000_0000, SCALE as int);
        lemma_trunc_div_monotonic(-0x4000_0000_0000_0000_0000_0000_0000_0000, a * b, SCALE as int);
    }
    let wide: i128 = (a as i128) * (b as i128);
    div_toward_zero(wide, SCALE as i128)
}

/// `x` limited to the band from `lo` to `hi`.
pub fn clamp(x: i64, lo: i64, hi: i64) -> (r: i64)
    requires
        lo <= hi,
    ensures
        r == clamp_to(x as int, lo as int, hi as int),
        lo <= r <= hi,
{
    if x < lo {
        lo
    } else if x > hi {
        hi
    } else {
        x
    }
}

} // verus!
