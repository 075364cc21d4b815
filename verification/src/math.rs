//! Shared numeric helpers: absolute values and the floor square root.

use vstd::prelude::*;

verus! {

/// Absolute value of a mathematical integer.
pub open spec fn abs_val(x: int) -> int {
    if x < 0 {
        -x
    } else {
        x
    }
}

/// Squaring forgets the sign.
pub proof fn lemma_abs_square(a: int)
    ensures
        abs_val(a) * abs_val(a) == a * a,
{
    if a < 0 {
        assert((-a) * (-a) == a * a) by (nonlinear_arith);
    }
}

/// Floor of the (real) square root of `n`, i.e. the greatest `r >= 0`
/// with `r * r <= n`; zero for negative `n`.
pub open spec fn sqrt_floor(n: int) -> int
    decreases n,
{
    if n <= 0 {
        0
    } else {
        let r = sqrt_floor(n - 1);
        if (r + 1) * (r + 1) <= n {
            r + 1
        } else {
            r
        }
    }
}

/// `sqrt_floor(n)` is the greatest integer whose square does not exceed `n`.
pub proof fn lemma_sqrt_floor_bounds(n: int)
    requires
        n >= 0,
    ensures
        sqrt_floor(n) >= 0,
        sqrt_floor(n) * sqrt_floor(n) <= n,
        n < (sqrt_floor(n) + 1) * (sqrt_floor(n) + 1),
    decreases n,
{
    if n == 0 {
    } else {
        lemma_sqrt_floor_bounds(n - 1);
        let r = sqrt_floor(n - 1);
        if (r + 1) * (r + 1) <= n {
            assert(n < (r + 2) * (r + 2)) by (nonlinear_arith)
                requires
                    r >= 0,
                    n - 1 < (r + 1) * (r + 1),
            ;
        }
    }
}

/// Any `r` within the floor-square-root bounds is `sqrt_floor(n)` itself.
pub proof fn lemma_sqrt_floor_unique(n: int, r: int)
    requires
        0 <= r,
        r * r <= n,
        n < (r + 1) * (r + 1),
    ensures
        sqrt_floor(n) == r,
{
    lemma_sqrt_floor_bounds(n);
    let s = sqrt_floor(n);
    assert(s < r + 1) by (nonlinear_arith)
        requires
            0 <= s,
            0 <= r,
            s * s <= n,
            n < (r + 1) * (r + 1),
    ;
    assert(r < s + 1) by (nonlinear_arith)
        requires
            0 <= s,
            0 <= r,
            r * r <= n,
            n < (s + 1) * (s + 1),
    ;
}

/// The floor square root never decreases as its argument grows.
pub proof fn lemma_sqrt_floor_monotonic(m: int, n: int)
    requires
        0 <= m <= n,
    ensures
        sqrt_floor(m) <= sqrt_floor(n),
{
    lemma_sqrt_floor_bounds(m);
    lemma_sqrt_floor_bounds(n);
    let a = sqrt_floor(m);
    let b = sqrt_floor(n);
    assert(a < b + 1) by (nonlinear_arith)
        requires
            0 <= a,
            0 <= b,
            a * a <= m,
            m <= n,
            n < (b + 1) * (b + 1),
    ;
}

/// Floor square root of a machine word, by binary search.
pub fn isqrt(n: u64) -> (r: u64)
    ensures
        r == sqrt_floor(n as int),
{
    let mut lo: u64 = 0;
    let mut hi: u64 = 4294967296;
    while lo + 1 < hi
        invariant
            lo < hi,
            hi <= 4294967296,
            (lo as int) * (lo as int) <= n as int,
            (n as int) < (hi as int) * (hi as int),
        decreases hi - lo,
    {
        let mid: u64 = lo + (hi - lo) / 2;
        proof {
            assert((mid as int) * (mid as int) <= 18446744073709551616) by (nonlinear_arith)
                requires
                    0 <= mid as int <= 4294967296,
            ;
        }
        let sq: u128 = (mid as u128) * (mid as u128);
        if sq <= n as u128 {
            lo = mid;
        } else {
            hi = mid;
        }
    }
    proof {
        lemma_sqrt_floor_unique(n as int, lo as int);
    }
    lo
}

/// `|a - b|` as an unsigned word; total on all of `i64`.
pub fn abs_diff_i64(a: i64, b: i64) -> (r: u64)
    ensures
        r == abs_val(a - b),
{
    let d: i128 = a as i128 - b as i128;
    if d < 0 {
        (-d) as u64
    } else {
        d as u64
    }
}

} // verus!
