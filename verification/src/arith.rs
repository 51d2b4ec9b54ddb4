//! Saturating arithmetic on amounts of money.
use vstd::prelude::*;

verus! {

/// The amount nearest to `x`.
pub open spec fn saturated(x: int) -> int {
    if x > i128::MAX {
        i128::MAX as int
    } else if x < i128::MIN {
        i128::MIN as int
    } else {
        x
    }
}

/// `x / divisor`, rounded toward zero.
pub open spec fn quotient(x: int, divisor: int) -> int
    recommends
        divisor > 0,
{
    if x >= 0 {
        x / divisor
    } else {
        -((-x) / divisor)
    }
}

/// `amount * share / whole`, where the product saturates and the quotient is
/// rounded toward zero.
pub open spec fn portion(amount: int, share: int, whole: int) -> int
    recommends
        whole > 0,
{
    quotient(saturated(amount * share), whole)
}

/// `a + b`, saturated.
pub(crate) fn saturating_add(a: i128, b: i128) -> (sum: i128)
    ensures
        sum == saturated(a + b),
{
    match a.checked_add(b) {
        Some(sum) => sum,
        None => if a < 0 {
            i128::MIN
        } else {
            i128::MAX
        },
    }
}

/// `a - b`, saturated.
pub(crate) fn saturating_sub(a: i128, b: i128) -> (difference: i128)
    ensures
        difference == saturated(a - b),
{
    match a.checked_sub(b) {
        Some(difference) => difference,
        None => if a < 0 {
            i128::MIN
        } else {
            i128::MAX
        },
    }
}

/// `a * b`, saturated.
pub(crate) fn saturating_mul(a: i128, b: i128) -> (product: i128)
    ensures
        product == saturated(a * b),
{
    match a.checked_mul(b) {
        Some(product) => product,
        None => {
            if (a < 0) == (b < 0) {
                assert(a * b >= 0) by (nonlinear_arith)
                    requires
                        (a < 0) == (b < 0),
                ;
                i128::MAX
            } else {
                assert(a * b <= 0) by (nonlinear_arith)
                    requires
                        (a < 0) != (b < 0),
                ;
                i128::MIN
            }
        },
    }
}

/// `amount * share / whole`, where the product saturates and the quotient is
/// rounded toward zero.
pub(crate) fn exact_portion(amount: i128, share: i128, whole: i128) -> (part: i128)
    requires
        whole > 0,
    ensures
        part == portion(amount as int, share as int, whole as int),
{
    let product: i128 = saturating_mul(amount, share);
    proof {
        lemma_quotient_bounds(product as int, whole as int);
    }
    match product.checked_div(whole) {
        Some(part) => part,
        None => 0,
    }
}

/// A quotient lies between zero and the dividend, and the divisor times the
/// quotient between zero and the dividend too.
pub(crate) proof fn lemma_quotient_bounds(x: int, divisor: int)
    requires
        divisor > 0,
    ensures
        x >= 0 ==> 0 <= quotient(x, divisor) <= x,
        x <= 0 ==> x <= quotient(x, divisor) <= 0,
        x >= 0 ==> quotient(x, divisor) * divisor <= x,
{
    if x >= 0 {
        assert(0 <= x / divisor <= x && (x / divisor) * divisor <= x) by (nonlinear_arith)
            requires
                x >= 0,
                divisor > 0,
        ;
    } else {
        let y: int = -x;
        assert(0 <= y / divisor <= y) by (nonlinear_arith)
            requires
                y >= 0,
                divisor > 0,
        ;
    }
}

} // verus!
