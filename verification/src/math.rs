//! Wide-integer helpers shared by the engines: a product divided without
//! intermediate overflow, the integer square root, and the facts about
//! flooring division that the engines' laws rest on.

use vstd::prelude::*;

verus! {

/// The largest product of two 64-bit values; it fits in 128 bits.
pub open spec fn max_product() -> int {
    0xffff_ffff_ffff_ffffint * 0xffff_ffff_ffff_ffffint
}

/// The product of two 64-bit values is at most `max_product()`.
pub proof fn lemma_product_fits(a: u64, b: u64)
    ensures
        0 <= a * b <= max_product(),
        max_product() < 0x1_0000_0000_0000_0000_0000_0000_0000_0000,
{
    assert(0 <= a * b <= 0xffff_ffff_ffff_ffff * 0xffff_ffff_ffff_ffff) by (nonlinear_arith)
        requires
            0 <= a <= 0xffff_ffff_ffff_ffff,
            0 <= b <= 0xffff_ffff_ffff_ffff,
    ;
}

/// `floor(a * b / d)`, the product taken in 128 bits.
pub fn mul_div(a: u64, b: u64, d: u128) -> (q: u128)
    requires
        d > 0,
    ensures
        q == (a * b) / (d as int),
        q <= a * b,
        q <= max_product(),
{
    proof {
        lemma_product_fits(a, b);
        lemma_quotient_bounds(a * b, d as int);
    }
    let p: u128 = (a as u128) * (b as u128);
    p / d
}

/// A flooring quotient by a positive divisor lies between zero and the
/// dividend, and the divisor times the quotient misses the dividend by less
/// than the divisor.
pub proof fn lemma_quotient_bounds(x: int, d: int)
    requires
        0 <= x,
        0 < d,
    ensures
        0 <= x / d <= x,
        d * (x / d) <= x < d * (x / d) + d,
{
    assert(0 <= x / d <= x && d * (x / d) <= x < d * (x / d) + d) by (nonlinear_arith)
        requires
            0 <= x,
            0 < d,
    ;
}

/// Flooring division by a positive divisor keeps the order of dividends.
pub proof fn lemma_quotient_monotonic(x: int, y: int, d: int)
    requires
        0 <= x <= y,
        0 < d,
    ensures
        x / d <= y / d,
{
    assert(x / d <= y / d) by (nonlinear_arith)
        requires
            0 <= x <= y,
            0 < d,
    ;
}

/// `r` is the integer square root of `n`: the largest number whose square
/// does not exceed `n`.
pub open spec fn is_floor_sqrt(n: nat, r: nat) -> bool {
    r * r <= n < (r + 1) * (r + 1)
}

/// The integer square root of `n`.
pub open spec fn floor_sqrt(n: nat) -> nat {
    choose|r: nat| is_floor_sqrt(n, r)
}

/// A number has at most one integer square root, so any `r` that meets
/// `is_floor_sqrt` is `floor_sqrt(n)`.
pub proof fn lemma_floor_sqrt_unique(n: nat, r: nat)
    requires
        is_floor_sqrt(n, r),
    ensures
        floor_sqrt(n) == r,
{
    let s = floor_sqrt(n);
    assert(is_floor_sqrt(n, s));
    assert(s == r) by (nonlinear_arith)
        requires
            r * r <= n < (r + 1) * (r + 1),
            s * s <= n < (s + 1) * (s + 1),
    ;
}

/// The integer square root of a 128-bit number, found by bisection.
pub fn integer_sqrt(n: u128) -> (r: u64)
    ensures
        r == floor_sqrt(n as nat),
        is_floor_sqrt(n as nat, r as nat),
{
    let mut lo: u128 = 0;
    let mut hi: u128 = 0x1_0000_0000_0000_0000;
    while hi - lo > 1
        invariant
            lo < hi <= 0x1_0000_0000_0000_0000,
            lo * lo <= n < hi * hi,
        decreases hi - lo,
    {
        let mid: u128 = lo + (hi - lo) / 2;
        proof {
            assert(mid * mid <= 0xffff_ffff_ffff_ffff * 0xffff_ffff_ffff_ffff) by (nonlinear_arith)
                requires
                    0 <= mid <= 0xffff_ffff_ffff_ffff,
            ;
        }
        if mid * mid <= n {
            lo = mid;
        } else {
            hi = mid;
        }
    }
    proof {
        lemma_floor_sqrt_unique(n as nat, lo as nat);
    }
    lo as u64
}

} // verus!
