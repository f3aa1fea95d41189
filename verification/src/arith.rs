//! Scalar helpers shared by the vector types: the sign, absolute value
//! and truncating division of a mathematical integer, and the error
//! reported when a division by zero is requested.

use vstd::prelude::*;
use vstd::arithmetic::div_mod::{
    lemma_div_is_ordered_by_denominator, lemma_div_multiples_vanish, lemma_div_nonincreasing,
    lemma_div_pos_is_pos,
};

verus! {

/// Error returned by the division operations when a divisor component
/// is zero.
#[derive(Clone, Copy, Debug, PartialEq, Eq, Structural)]
pub struct DivideByZero;

/// The sign of `a`: `-1`, `0` or `1`.
pub open spec fn sign_of(a: int) -> int {
    if a > 0 {
        1
    } else if a < 0 {
        -1
    } else {
        0
    }
}

/// The absolute value of `a`.
pub open spec fn abs_of(a: int) -> int {
    if a >= 0 {
        a
    } else {
        -a
    }
}

/// The quotient of `a` by `b` rounded toward zero, which is how `/`
/// rounds on the machine integer types.
pub open spec fn div_trunc(a: int, b: int) -> int
    recommends
        b != 0,
{
    if a == 0 {
        0
    } else if a > 0 && b > 0 {
        a / b
    } else if a < 0 && b < 0 {
        (a * -1) / (b * -1)
    } else if a < 0 {
        ((a * -1) / b) * -1
    } else {
        (a / (b * -1)) * -1
    }
}

/// The sign of `a` as an executable value.
pub(crate) fn signum_i32(a: i32) -> (r: i32)
    ensures
        r == sign_of(a as int),
{
    if a > 0 {
        1
    } else if a < 0 {
        -1
    } else {
        0
    }
}

/// The absolute value of `a` as an executable value; `i32::MIN` is
/// excluded because its absolute value does not fit.
pub(crate) fn abs_i32(a: i32) -> (r: i32)
    requires
        a != i32::MIN,
    ensures
        r == abs_of(a as int),
{
    if a >= 0 {
        a
    } else {
        -a
    }
}

/// Truncating division is exact on multiples: dividing `a * b` by `b`
/// recovers `a`, whatever the signs of `a` and `b`.
pub proof fn lemma_div_trunc_cancel(a: int, b: int)
    requires
        b != 0,
    ensures
        div_trunc(a * b, b) == a,
{
    let p = a * b;
    if a == 0 {
        assert(p == 0);
    } else if a > 0 && b > 0 {
        assert(p > 0) by (nonlinear_arith)
            requires
                a > 0,
                b > 0,
                p == a * b,
        ;
        assert(p == b * a) by (nonlinear_arith)
            requires
                p == a * b,
        ;
        lemma_div_multiples_vanish(a, b);
    } else if a > 0 && b < 0 {
        assert(p < 0 && p * -1 == (b * -1) * a) by (nonlinear_arith)
            requires
                a > 0,
                b < 0,
                p == a * b,
        ;
        lemma_div_multiples_vanish(a, b * -1);
    } else if a < 0 && b > 0 {
        assert(p < 0 && p * -1 == b * (a * -1)) by (nonlinear_arith)
            requires
                a < 0,
                b > 0,
                p == a * b,
        ;
        lemma_div_multiples_vanish(a * -1, b);
    } else {
        assert(p > 0 && p == (b * -1) * (a * -1)) by (nonlinear_arith)
            requires
                a < 0,
                b < 0,
                p == a * b,
        ;
        lemma_div_multiples_vanish(a * -1, b * -1);
    }
}

/// For a dividend in the 32-bit signed range, the truncated quotient
/// stays in that range as long as the one overflowing pair, the
/// smallest value divided by `-1`, is ruled out.
pub proof fn lemma_div_trunc_in_i32(a: int, b: int)
    requires
        i32::MIN <= a <= i32::MAX,
        b != 0,
        !(a == i32::MIN && b == -1),
    ensures
        i32::MIN <= div_trunc(a, b) <= i32::MAX,
{
    if a == 0 {
    } else if a > 0 && b > 0 {
        lemma_div_pos_is_pos(a, b);
        lemma_div_nonincreasing(a, b);
    } else if a < 0 && b < 0 {
        let n = a * -1;
        let d = b * -1;
        lemma_div_pos_is_pos(n, d);
        if a == i32::MIN {
            // b == -1 is excluded, so d >= 2 and the quotient shrinks.
            lemma_div_is_ordered_by_denominator(n, 2, d);
            lemma_div_nonincreasing(n, 2);
        } else {
            lemma_div_nonincreasing(n, d);
        }
    } else if a < 0 {
        let n = a * -1;
        lemma_div_pos_is_pos(n, b);
        lemma_div_nonincreasing(n, b);
    } else {
        let d = b * -1;
        lemma_div_pos_is_pos(a, d);
        lemma_div_nonincreasing(a, d);
    }
}

} // verus!
