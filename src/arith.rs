//! Rounded integer division.
use vstd::prelude::*;

verus! {

/// `a / b` rounded down, for `b > 0`.
pub open spec fn floor_div(a: int, b: int) -> int
    recommends
        b > 0,
{
    a / b
}

/// `a / b` rounded up, for `b > 0`.
pub open spec fn ceil_div(a: int, b: int) -> int
    recommends
        b > 0,
{
    -((-a) / b)
}

/// `a / b` rounded down.
pub fn floor_div_exec(a: i128, b: u64) -> (q: i128)
    requires
        b > 0,
        a > i128::MIN,
    ensures
        q == floor_div(a as int, b as int),
        a >= 0 ==> 0 <= q <= a,
        a < 0 ==> a <= q < 0,
{
    if a >= 0 {
        let q: u128 = (a as u128) / (b as u128);
        assert(q <= a) by (nonlinear_arith)
            requires q == (a as u128) / (b as u128), b > 0, a >= 0;
        q as i128
    } else {
        let n: u128 = (0 - a) as u128;
        let bb: u128 = b as u128;
        let q: u128 = (n + bb - 1) / bb;
        proof {
            let ni = n as int;
            let bi = b as int;
            let qi = q as int;
            assert(qi == (ni + bi - 1) / bi);
            lemma_neg_floor(ni, bi);
            assert(1 <= qi <= ni) by (nonlinear_arith)
                requires qi == (ni + bi - 1) / bi, bi > 0, ni > 0;
        }
        0 - (q as i128)
    }
}

/// `a / b` rounded up.
pub fn ceil_div_exec(a: i128, b: u64) -> (q: i128)
    requires
        b > 0,
        a > i128::MIN,
    ensures
        q == ceil_div(a as int, b as int),
{
    let f = floor_div_exec(0 - a, b);
    0 - f
}

/// Dividing a negated natural rounds down to the negated rounded-up quotient.
proof fn lemma_neg_floor(n: int, b: int)
    requires
        n > 0,
        b > 0,
    ensures
        (-n) / b == -((n + b - 1) / b),
{
    let q = (n + b - 1) / b;
    let r = (n + b - 1) % b;
    assert(n + b - 1 == q * b + r && 0 <= r < b) by (nonlinear_arith)
        requires b > 0, q == (n + b - 1) / b, r == (n + b - 1) % b;
    // -n == (-q) * b + (b - 1 - r), with 0 <= b - 1 - r < b
    let r2 = b - 1 - r;
    assert(-n == (-q) * b + r2) by (nonlinear_arith)
        requires n + b - 1 == q * b + r, r2 == b - 1 - r;
    vstd::arithmetic::div_mod::lemma_fundamental_div_mod_converse(-n, b, -q, r2);
}

/// A quotient rounded up stays within any bounds that the dividend
/// respects as multiples of the divisor.
pub proof fn lemma_ceil_div_bounds(x: int, d: int, lo: int, hi: int)
    requires
        d > 0,
        lo * d <= x <= hi * d,
    ensures
        lo <= ceil_div(x, d) <= hi,
{
    assert(-hi * d <= -x <= -lo * d) by (nonlinear_arith)
        requires lo * d <= x <= hi * d;
    vstd::arithmetic::div_mod::lemma_div_is_ordered(-hi * d, -x, d);
    vstd::arithmetic::div_mod::lemma_div_is_ordered(-x, -lo * d, d);
    vstd::arithmetic::div_mod::lemma_div_multiples_vanish(-hi, d);
    vstd::arithmetic::div_mod::lemma_div_multiples_vanish(-lo, d);
    assert(d * (-hi) == -hi * d) by (nonlinear_arith);
    assert(d * (-lo) == -lo * d) by (nonlinear_arith);
}

/// Scaling `a` by a fraction `o / d` in `[0, 1]` and rounding up keeps the
/// result between `0` and `a`.
pub proof fn lemma_scaled_ceil(a: int, o: int, d: int)
    requires
        d > 0,
        0 <= o <= d,
    ensures
        a >= 0 ==> 0 <= ceil_div(a * o, d) <= a,
        a < 0 ==> a <= ceil_div(a * o, d) <= 0,
{
    if a >= 0 {
        assert(0 * d <= a * o <= a * d) by (nonlinear_arith)
            requires a >= 0, 0 <= o <= d;
        lemma_ceil_div_bounds(a * o, d, 0, a);
    } else {
        assert(a * d <= a * o <= 0 * d) by (nonlinear_arith)
            requires a < 0, 0 <= o <= d;
        lemma_ceil_div_bounds(a * o, d, a, 0);
    }
}

} // verus!
