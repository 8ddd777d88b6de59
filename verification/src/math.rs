//! Fixed-point arithmetic in basis points.

use vstd::prelude::*;

verus! {

/// One hundred percent, in basis points.
pub const BASIS_POINTS_SCALE: i128 = 10_000;

/// Length of the year over which the annual rate is spread, in seconds.
pub const SECONDS_PER_YEAR: i128 = 31_536_000;

/// Quotient of `x` by a positive `d`, rounded toward zero.
pub open spec fn trunc_div(x: int, d: int) -> int {
    if x >= 0 {
        x / d
    } else {
        -((-x) / d)
    }
}

/// Whether `v` is representable as an `i128`.
pub open spec fn fits_i128(v: int) -> bool {
    i128::MIN <= v <= i128::MAX
}

/// `a * b / d`, rounded toward zero. Meaningful for a positive `d`.
pub open spec fn mul_div(a: int, b: int, d: int) -> int {
    trunc_div(a * b, d)
}

/// `value * bps / 10_000`, rounded toward zero.
pub open spec fn bps_of(value: int, bps: int) -> int {
    mul_div(value, bps, 10_000)
}

/// Collateral ratio in basis points: `collateral * 10_000 / debt`, rounded
/// toward zero. Meaningful for a positive `debt`.
pub open spec fn ratio_bps(collateral: int, debt: int) -> int {
    mul_div(collateral, 10_000, debt)
}

/// `a * b / d`, rounded toward zero.
///
/// `None` when `d` is not positive or the product does not fit in an
/// `i128`.
pub fn checked_mul_div(a: i128, b: i128, d: i128) -> (r: Option<i128>)
    ensures
        d > 0 && fits_i128(a * b) ==> r == Some(mul_div(a as int, b as int, d as int) as i128)
            && fits_i128(mul_div(a as int, b as int, d as int)),
        !(d > 0 && fits_i128(a * b)) ==> r.is_none(),
{
    if d <= 0 {
        return None;
    }
    match a.checked_mul(b) {
        None => None,
        Some(product) => {
            proof {
                lemma_trunc_div_bounded(product as int, d as int);
            }
            product.checked_div(d)
        },
    }
}

/// The share `bps` of `value`: `value * bps / 10_000`, rounded toward zero.
///
/// `None` when the product does not fit in an `i128`.
pub fn checked_bps_of(value: i128, bps: i128) -> (r: Option<i128>)
    ensures
        fits_i128(value * bps) ==> r == Some(bps_of(value as int, bps as int) as i128)
            && fits_i128(bps_of(value as int, bps as int)),
        !fits_i128(value * bps) ==> r.is_none(),
{
    checked_mul_div(value, bps, BASIS_POINTS_SCALE)
}

/// The collateral ratio of a position with positive debt, in basis points.
///
/// `None` when `debt` is not positive or `collateral * 10_000` does not fit
/// in an `i128`.
pub fn checked_ratio_bps(collateral: i128, debt: i128) -> (r: Option<i128>)
    ensures
        debt > 0 && fits_i128(collateral * 10_000) ==> r == Some(
            ratio_bps(collateral as int, debt as int) as i128,
        ) && fits_i128(ratio_bps(collateral as int, debt as int)),
        !(debt > 0 && fits_i128(collateral * 10_000)) ==> r.is_none(),
{
    checked_mul_div(collateral, BASIS_POINTS_SCALE, debt)
}

/// Rounding toward zero never grows the magnitude of the dividend.
pub proof fn lemma_trunc_div_bounded(x: int, d: int)
    requires
        d > 0,
    ensures
        x >= 0 ==> 0 <= trunc_div(x, d) <= x,
        x <= 0 ==> x <= trunc_div(x, d) <= 0,
{
    if x >= 0 {
        assert(0 <= x / d <= x) by (nonlinear_arith)
            requires
                x >= 0,
                d > 0,
        ;
    } else {
        let y = -x;
        assert(0 <= y / d <= y) by (nonlinear_arith)
            requires
                y >= 0,
                d > 0,
        ;
    }
}

/// Rounding toward zero keeps the order of the dividends.
pub proof fn lemma_trunc_div_monotone(x: int, y: int, d: int)
    requires
        d > 0,
        x <= y,
    ensures
        trunc_div(x, d) <= trunc_div(y, d),
{
    lemma_trunc_div_bounded(x, d);
    lemma_trunc_div_bounded(y, d);
    if x >= 0 {
        vstd::arithmetic::div_mod::lemma_div_is_ordered(x, y, d);
    } else if y < 0 {
        vstd::arithmetic::div_mod::lemma_div_is_ordered(-y, -x, d);
    }
}

/// For a fixed positive debt, the collateral ratio does not fall when the
/// collateral grows.
pub proof fn lemma_ratio_monotone(lower: int, higher: int, debt: int)
    requires
        debt > 0,
        lower <= higher,
    ensures
        ratio_bps(lower, debt) <= ratio_bps(higher, debt),
{
    lemma_trunc_div_monotone(lower * 10_000, higher * 10_000, debt);
}

} // verus!
