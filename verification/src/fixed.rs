//! Fixed-point arithmetic kernel.
//!
//! Coordinates and densities share one scale: `UNIT` is one whole world
//! unit, and densities are clamped to `[-UNIT, UNIT]`. Divisions round
//! toward negative infinity, which matches the mathematical `/` on `int`
//! for positive divisors.

use vstd::prelude::*;

verus! {

/// One whole unit of the fixed-point scale (2^20).
pub const UNIT: i64 = 1048576;

/// The range of a clamped density sample.
pub open spec fn in_unit_range(v: int) -> bool {
    -(UNIT as int) <= v <= UNIT as int
}

pub open spec fn clamp_unit_spec(v: int) -> int {
    if v < -(UNIT as int) {
        -(UNIT as int)
    } else if v > UNIT as int {
        UNIT as int
    } else {
        v
    }
}

/// Clamp a wide intermediate value into the density range.
pub fn clamp_unit(v: i128) -> (r: i64)
    ensures
        r == clamp_unit_spec(v as int),
        in_unit_range(r as int),
{
    if v < -(UNIT as i128) {
        -UNIT
    } else if v > UNIT as i128 {
        UNIT
    } else {
        v as i64
    }
}

pub open spec fn midpoint_spec(a: int, b: int) -> int {
    (a + b) / 2
}

/// Midpoint of two density samples, rounding toward negative infinity.
pub fn midpoint(a: i64, b: i64) -> (r: i64)
    requires
        in_unit_range(a as int),
        in_unit_range(b as int),
    ensures
        r == midpoint_spec(a as int, b as int),
        in_unit_range(r as int),
{
    let s: i64 = a + b;
    let r = s.checked_div_euclid(2).unwrap();
    assert(r == (a + b) / 2);
    r
}

/// Division rounding toward negative infinity, for positive divisors.
pub fn floor_div(n: i128, d: i128) -> (r: i128)
    requires
        d > 0,
    ensures
        r == n as int / d as int,
{
    proof {
        lemma_div_bounded(n as int, d as int);
    }
    n.checked_div_euclid(d).unwrap()
}

/// A quotient by a positive divisor lies between its dividend and zero.
pub proof fn lemma_div_bounded(n: int, d: int)
    requires
        d >= 1,
    ensures
        n >= 0 ==> 0 <= n / d <= n,
        n < 0 ==> n <= n / d <= 0,
{
    vstd::arithmetic::div_mod::lemma_fundamental_div_mod(n, d);
    vstd::arithmetic::div_mod::lemma_mod_division_less_than_divisor(n, d);
    let q = n / d;
    let r = n % d;
    assert(n >= 0 ==> 0 <= q <= n) by (nonlinear_arith)
        requires n == d * q + r, 0 <= r < d, d >= 1,
    ;
    assert(n < 0 ==> n <= q <= 0) by (nonlinear_arith)
        requires n == d * q + r, 0 <= r < d, d >= 1,
    ;
}

/// Integer square root: the greatest `r` with `r * r <= n`.
pub fn isqrt(n: u128) -> (r: u128)
    ensures
        r * r <= n,
        n < (r + 1) * (r + 1),
{
    let mut lo: u128 = 0;
    let mut hi: u128 = 0x1_0000_0000_0000_0000;
    assert(hi * hi > u128::MAX);
    while hi - lo > 1
        invariant
            lo < hi,
            lo * lo <= n,
            n < hi * hi,
        decreases hi - lo,
    {
        let mid: u128 = lo + (hi - lo) / 2;
        assert(lo < mid < hi);
        assert(mid * mid < hi * hi) by (nonlinear_arith)
            requires 0 <= mid < hi,
        ;
        if mid <= u64::MAX as u128 {
            assert(mid * mid <= u128::MAX) by (nonlinear_arith)
                requires 0 <= mid <= 0xffff_ffff_ffff_ffffu128,
            ;
            if mid * mid <= n {
                lo = mid;
            } else {
                hi = mid;
            }
        } else {
            // mid*mid would overflow only when mid > u64::MAX, where it
            // certainly exceeds any u128 n.
            assert(mid * mid > u128::MAX) by (nonlinear_arith)
                requires mid > 0xffff_ffff_ffff_ffffu128,
            ;
            hi = mid;
        }
    }
    lo
}

} // verus!
