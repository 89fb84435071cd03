//! Integer arithmetic shared by the statistics: floor square roots and
//! floor division of signed numbers.

use vstd::prelude::*;
use vstd::arithmetic::div_mod::lemma_fundamental_div_mod;
use vstd::arithmetic::div_mod::lemma_fundamental_div_mod_converse;

verus! {

/// `r` is the floor of the square root of `x`: the largest natural number
/// whose square does not exceed `x`.
pub open spec fn is_floor_sqrt(r: int, x: int) -> bool {
    0 <= r && r * r <= x < (r + 1) * (r + 1)
}

/// The floor of the square root of `x`.
pub open spec fn floor_sqrt(x: nat) -> nat {
    choose|r: nat| is_floor_sqrt(r as int, x as int)
}

proof fn lemma_floor_sqrt_witness(x: nat) -> (r: nat)
    ensures
        is_floor_sqrt(r as int, x as int),
    decreases x,
{
    if x == 0 {
        0
    } else {
        let p = lemma_floor_sqrt_witness((x - 1) as nat);
        let q = p as int + 1;
        if q * q <= x {
            assert(q * q < (q + 1) * (q + 1)) by (nonlinear_arith)
                requires
                    0 <= q,
            ;
            (p + 1) as nat
        } else {
            p
        }
    }
}

/// Every natural number has a floor square root, and `floor_sqrt` is it.
pub proof fn lemma_floor_sqrt(x: nat)
    ensures
        is_floor_sqrt(floor_sqrt(x) as int, x as int),
{
    let r = lemma_floor_sqrt_witness(x);
    assert(is_floor_sqrt(r as int, x as int));
}

/// A number has only one floor square root.
pub proof fn lemma_floor_sqrt_unique(r: int, s: int, x: int)
    requires
        is_floor_sqrt(r, x),
        is_floor_sqrt(s, x),
    ensures
        r == s,
{
    assert(r < s ==> (r + 1) * (r + 1) <= s * s) by (nonlinear_arith)
        requires
            0 <= r,
    ;
    assert(s < r ==> (s + 1) * (s + 1) <= r * r) by (nonlinear_arith)
        requires
            0 <= s,
    ;
}

/// The floor square root does not decrease when its argument grows.
pub proof fn lemma_floor_sqrt_monotonic(x: nat, y: nat)
    requires
        x <= y,
    ensures
        floor_sqrt(x) <= floor_sqrt(y),
{
    lemma_floor_sqrt(x);
    lemma_floor_sqrt(y);
    let r = floor_sqrt(x) as int;
    let s = floor_sqrt(y) as int;
    assert(s < r ==> (s + 1) * (s + 1) <= r * r) by (nonlinear_arith)
        requires
            0 <= s,
    ;
}

/// The floor square root of a perfect square is its root.
pub proof fn lemma_floor_sqrt_of_square(r: nat)
    ensures
        floor_sqrt(r * r) == r,
{
    lemma_floor_sqrt(r * r);
    assert(r * r < (r + 1) * (r + 1)) by (nonlinear_arith);
    lemma_floor_sqrt_unique(r as int, floor_sqrt(r * r) as int, (r * r) as int);
}

/// Computes the floor of the square root of `x` by bisection.
pub fn isqrt(x: u128) -> (r: u128)
    ensures
        r == floor_sqrt(x as nat),
        r < 0x1_0000_0000_0000_0000,
{
    let mut lo: u128 = 0;
    let mut hi: u128 = 0x1_0000_0000_0000_0000;
    assert(hi * hi > x) by (nonlinear_arith)
        requires
            hi == 0x1_0000_0000_0000_0000,
            x <= u128::MAX,
    ;
    while hi - lo > 1
        invariant
            lo < hi <= 0x1_0000_0000_0000_0000,
            lo * lo <= x < hi * hi,
        decreases hi - lo,
    {
        let mid: u128 = lo + (hi - lo) / 2;
        assert(mid * mid <= u128::MAX) by (nonlinear_arith)
            requires
                mid < 0x1_0000_0000_0000_0000,
        ;
        if mid * mid <= x {
            lo = mid;
        } else {
            hi = mid;
        }
    }
    proof {
        lemma_floor_sqrt(x as nat);
        lemma_floor_sqrt_unique(lo as int, floor_sqrt(x as nat) as int, x as int);
    }
    lo
}

/// Divides a signed number by a positive one, rounding toward negative
/// infinity.
pub fn div_floor(a: i128, d: u64) -> (q: i128)
    requires
        d > 0,
        -0x4000_0000_0000_0000_0000_0000_0000_0000 <= a,
    ensures
        q == a as int / d as int,
{
    if a >= 0 {
        let m: u128 = a as u128;
        let q: u128 = m / (d as u128);
        proof {
            lemma_fundamental_div_mod(a as int, d as int);
            assert(0 <= q * d <= a) by (nonlinear_arith)
                requires
                    q == a as int / d as int,
                    a as int == d * (a as int / d as int) + (a as int % d as int),
                    0 <= a as int % d as int,
                    0 <= q,
            ;
        }
        q as i128
    } else {
        let m: u128 = (-a) as u128;
        let up: u128 = m + (d as u128 - 1);
        let q: u128 = up / (d as u128);
        proof {
            lemma_fundamental_div_mod(up as int, d as int);
            let rem = up as int % d as int;
            assert(q <= up) by (nonlinear_arith)
                requires
                    up as int == d * q + rem,
                    0 <= rem,
                    d >= 1,
                    0 <= q,
            ;
            let neg = -(q as int);
            assert(neg * d == -(d * q)) by (nonlinear_arith)
                requires
                    neg == -(q as int),
            ;
            lemma_fundamental_div_mod_converse(a as int, d as int, neg, d - 1 - rem);
        }
        -(q as i128)
    }
}

} // verus!
