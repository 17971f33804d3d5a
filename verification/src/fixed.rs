//! Fixed-point scalars: an `i64` counts thousandths of a unit.

use vstd::prelude::*;

verus! {

/// The fixed-point representation of one.
pub const UNIT: i64 = 1000;

/// `lo` if `v` is below it, `hi` if `v` is above it, else `v`.
pub open spec fn clamp_spec(v: int, lo: int, hi: int) -> int {
    if v < lo {
        lo
    } else if v > hi {
        hi
    } else {
        v
    }
}

/// The quotient of `a` by a positive `b`, rounded toward zero.
pub open spec fn quot_spec(a: int, b: int) -> int {
    if a >= 0 {
        a / b
    } else {
        -((-a) / b)
    }
}

/// `r` is the least natural number whose square reaches `n`.
pub open spec fn is_ceil_sqrt(n: int, r: int) -> bool {
    &&& r >= 0
    &&& r * r >= n
    &&& (r == 0 || (r - 1) * (r - 1) < n)
}

/// The least natural number whose square reaches `n`.
pub open spec fn ceil_sqrt_spec(n: int) -> int {
    choose|r: int| is_ceil_sqrt(n, r)
}

/// At most one number is the rounded-up square root of `n`.
pub proof fn lemma_ceil_sqrt_unique(n: int, a: int, b: int)
    requires
        is_ceil_sqrt(n, a),
        is_ceil_sqrt(n, b),
    ensures
        a == b,
{
    if a < b {
        assert(a * a <= (b - 1) * (b - 1)) by (nonlinear_arith)
            requires
                0 <= a <= b - 1,
        ;
    } else if b < a {
        assert(b * b <= (a - 1) * (a - 1)) by (nonlinear_arith)
            requires
                0 <= b <= a - 1,
        ;
    }
}

/// Clamps `v` into `[-UNIT, UNIT]`.
pub fn clamp_unit(v: i128) -> (r: i64)
    ensures
        r == clamp_spec(v as int, -UNIT as int, UNIT as int),
        -UNIT <= r <= UNIT,
{
    if v < -UNIT as i128 {
        -UNIT
    } else if v > UNIT as i128 {
        UNIT
    } else {
        v as i64
    }
}

/// Divides `a` by a positive `b`, rounding toward zero.
pub fn quot(a: i128, b: i128) -> (q: i128)
    requires
        b > 0,
        a > i128::MIN,
    ensures
        q == quot_spec(a as int, b as int),
{
    if a >= 0 {
        a / b
    } else {
        let p: i128 = (-a) / b;
        -p
    }
}

/// The least number whose square reaches `n`.
pub fn ceil_sqrt(n: u64) -> (r: u64)
    ensures
        is_ceil_sqrt(n as int, r as int),
        r == ceil_sqrt_spec(n as int),
        r <= 4294967296,
{
    let mut lo: u64 = 0;
    let mut hi: u64 = 4294967296;
    while lo < hi
        invariant
            lo <= hi <= 4294967296,
            hi * hi >= n,
            lo == 0 || (lo - 1) * (lo - 1) < n,
        decreases hi - lo,
    {
        let mid: u64 = lo + (hi - lo) / 2;
        assert(mid * mid <= 4294967295 * 4294967295) by (nonlinear_arith)
            requires
                0 <= mid <= 4294967295,
        ;
        if mid * mid >= n {
            hi = mid;
        } else {
            lo = mid + 1;
        }
    }
    proof {
        lemma_ceil_sqrt_unique(n as int, lo as int, ceil_sqrt_spec(n as int));
    }
    lo
}

} // verus!
