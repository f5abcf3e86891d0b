//! Products and quotients of token amounts, computed without overflow.
use vstd::prelude::*;

verus! {

/// `x / d` rounded up, for a positive divisor.
pub open spec fn ceil_div(x: int, d: int) -> int {
    (x + d - 1) / d
}

/// The product of two amounts, exactly.
pub fn mul_wide(a: u64, b: u64) -> (r: u128)
    ensures
        r == a * b,
{
    proof {
        lemma_mul_wide_bound(a as int, b as int);
    }
    (a as u128) * (b as u128)
}

/// A product of two 64-bit amounts fits in 128 bits.
pub proof fn lemma_mul_wide_bound(a: int, b: int)
    requires
        0 <= a <= u64::MAX,
        0 <= b <= u64::MAX,
    ensures
        0 <= a * b <= u128::MAX,
{
    assert(0 <= a * b <= u64::MAX * u64::MAX) by (nonlinear_arith)
        requires
            0 <= a <= u64::MAX,
            0 <= b <= u64::MAX,
    ;
}

/// `x / d` rounded up.
pub fn ceil_div_u128(x: u128, d: u128) -> (r: u128)
    requires
        d > 0,
    ensures
        r == ceil_div(x as int, d as int),
{
    let q = x / d;
    let rem = x % d;
    proof {
        lemma_ceil_div(x as int, d as int);
    }
    if rem == 0 {
        q
    } else {
        q + 1
    }
}

/// Rounding up adds one to the quotient exactly when the division leaves a remainder.
pub proof fn lemma_ceil_div(x: int, d: int)
    requires
        x >= 0,
        d > 0,
    ensures
        ceil_div(x, d) == if x % d == 0 { x / d } else { x / d + 1 },
        x / d <= x,
        x % d != 0 ==> x / d < x,
{
    assert(x == d * (x / d) + x % d) by (nonlinear_arith)
        requires
            d > 0,
    ;
    assert(0 <= x % d < d) by (nonlinear_arith)
        requires
            d > 0,
    ;
    let q = x / d;
    let r = x % d;
    if r == 0 {
        assert((x + d - 1) == d * q + (d - 1));
        assert((d * q + (d - 1)) / d == q) by (nonlinear_arith)
            requires
                d > 0,
                0 <= d - 1 < d,
        ;
    } else {
        assert(d * (q + 1) == d * q + d) by (nonlinear_arith);
        assert((x + d - 1) == d * (q + 1) + (r - 1));
        assert((d * (q + 1) + (r - 1)) / d == q + 1) by (nonlinear_arith)
            requires
                d > 0,
                0 <= r - 1 < d,
        ;
    }
    assert(x / d <= x) by (nonlinear_arith)
        requires
            x >= 0,
            d > 0,
    ;
    if r != 0 {
        assert(d >= 2);
        assert(x / d < x) by (nonlinear_arith)
            requires
                x >= 1,
                d >= 2,
        ;
    }
}

} // verus!
