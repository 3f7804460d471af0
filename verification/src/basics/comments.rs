//! The two functions that the documentation examples call.

use vstd::prelude::*;

verus! {

/// The distance of `x` from zero.
pub open spec fn magnitude(x: int) -> int {
    if x < 0 {
        -x
    } else {
        x
    }
}

/// The quotient of `a` by `b` rounded towards zero: the quotient of the
/// magnitudes, negative when the signs differ.
pub open spec fn quotient(a: int, b: int) -> int
    recommends
        b != 0,
{
    if (a < 0) == (b < 0) {
        magnitude(a) / magnitude(b)
    } else {
        -(magnitude(a) / magnitude(b))
    }
}

/// Dividing by a negative number, in the mathematical sense that contracts
/// use, negates the quotient by its magnitude.
proof fn lemma_div_by_negative(a: int, b: int)
    requires
        a >= 0,
        b < 0,
    ensures
        a / b == -(a / (-b)),
{
    let q = a / (-b);
    let r = a % (-b);
    vstd::arithmetic::div_mod::lemma_fundamental_div_mod(a, -b);
    vstd::arithmetic::div_mod::lemma_mod_bound(a, -b);
    assert(a == b * (-q) + r) by (nonlinear_arith)
        requires
            a == (-b) * q + r,
    ;
    assert(a / b == -q) by (nonlinear_arith)
        requires
            a == b * (-q) + r,
            0 <= r < -b,
            b < 0,
    ;
}

/// The quotient of the magnitudes is at most the magnitude of the dividend,
/// and at most half of it when the divisor is not a unit.
proof fn lemma_quotient_bound(a: int, b: int)
    requires
        a >= 0,
        b > 0,
    ensures
        0 <= a / b <= a,
        b >= 2 ==> 2 * (a / b) <= a,
{
    vstd::arithmetic::div_mod::lemma_fundamental_div_mod(a, b);
    vstd::arithmetic::div_mod::lemma_mod_bound(a, b);
    let q = a / b;
    let r = a % b;
    assert(0 <= q <= a && (b >= 2 ==> 2 * q <= a)) by (nonlinear_arith)
        requires
            a == b * q + r,
            0 <= r < b,
            a >= 0,
            b > 0,
    ;
}

/// Adds one to `x`.
///
/// ```text
/// let answer = doc_test(5);
/// assert_eq!(6, answer);
/// ```
pub fn doc_test(x: i32) -> (answer: i32)
    requires
        x < i32::MAX,
    ensures
        answer == x + 1,
{
    x + 1
}

/// Divides `a` by `b`, rounding towards zero: what is left over is smaller
/// than the divisor in magnitude and never has the opposite sign of `a`.
///
/// A zero divisor has no quotient, and neither has `i32::MIN / -1` in 32
/// bits: both are excluded here, and a caller tests for them first.
pub fn panic_test(a: i32, b: i32) -> (q: i32)
    requires
        b != 0,
        !(a == i32::MIN && b == -1),
    ensures
        q == quotient(a as int, b as int),
        magnitude(a - q * b) < magnitude(b as int),
        a >= 0 ==> a - q * b >= 0,
        a <= 0 ==> a - q * b <= 0,
{
    proof {
        lemma_quotient_bound(magnitude(a as int), magnitude(b as int));
        if b < 0 {
            lemma_div_by_negative(magnitude(a as int), b as int);
        }
        lemma_quotient_rounds_towards_zero(a as int, b as int);
    }
    a / b
}

/// The quotient rounds towards zero: what is left over is smaller than the
/// divisor in magnitude and never has the opposite sign of the dividend.
pub proof fn lemma_quotient_rounds_towards_zero(a: int, b: int)
    requires
        b != 0,
    ensures
        magnitude(a - quotient(a, b) * b) < magnitude(b),
        a >= 0 ==> a - quotient(a, b) * b >= 0,
        a <= 0 ==> a - quotient(a, b) * b <= 0,
{
    let m = magnitude(a);
    let d = magnitude(b);
    let q = m / d;
    let r = m % d;
    vstd::arithmetic::div_mod::lemma_fundamental_div_mod(m, d);
    vstd::arithmetic::div_mod::lemma_mod_bound(m, d);
    assert(m - q * d == r) by (nonlinear_arith)
        requires
            m == d * q + r,
    ;
    if (a < 0) == (b < 0) {
        assert(q * b == if b < 0 {
            -(q * d)
        } else {
            q * d
        }) by (nonlinear_arith)
            requires
                d == magnitude(b),
        ;
    } else {
        assert((-q) * b == if b < 0 {
            q * d
        } else {
            -(q * d)
        }) by (nonlinear_arith)
            requires
                d == magnitude(b),
        ;
    }
}

} // verus!
