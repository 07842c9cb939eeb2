//! Integer square root, used to take Euclidean magnitudes of
//! fixed-point sensor vectors.

use vstd::prelude::*;

verus! {

/// The smaller of two integers.
pub open spec fn min_i(a: int, b: int) -> int {
    if a <= b {
        a
    } else {
        b
    }
}

/// `r` is the integer square root of `n`: the greatest integer whose
/// square does not exceed `n`.
pub open spec fn is_isqrt(n: int, r: int) -> bool {
    0 <= r && r * r <= n && n < (r + 1) * (r + 1)
}

/// The integer square root of a non-negative integer.
pub closed spec fn isqrt(n: int) -> int {
    choose|r: int| is_isqrt(n, r)
}

/// Every non-negative integer has an integer square root, and `isqrt`
/// denotes it.
pub proof fn lemma_isqrt_exists(n: int)
    requires
        n >= 0,
    ensures
        is_isqrt(n, isqrt(n)),
    decreases n,
{
    if n == 0 {
        assert(is_isqrt(0, 0));
    } else {
        lemma_isqrt_exists(n - 1);
        let r = isqrt(n - 1);
        if n < (r + 1) * (r + 1) {
            assert(is_isqrt(n, r));
        } else {
            assert(n == (r + 1) * (r + 1));
            assert((r + 1 + 1) * (r + 1 + 1) > (r + 1) * (r + 1)) by (nonlinear_arith)
                requires r >= 0;
            assert(is_isqrt(n, r + 1));
        }
    }
}

/// The integer square root is unique.
pub proof fn lemma_isqrt_unique(n: int, a: int, b: int)
    requires
        is_isqrt(n, a),
        is_isqrt(n, b),
    ensures
        a == b,
{
    if a < b {
        assert((a + 1) * (a + 1) <= b * b) by (nonlinear_arith)
            requires 0 <= a, a < b;
    }
    if b < a {
        assert((b + 1) * (b + 1) <= a * a) by (nonlinear_arith)
            requires 0 <= b, b < a;
    }
}

/// Computes the integer square root of `n` by binary search.
pub fn isqrt64(n: u64) -> (r: u64)
    ensures
        r as int == isqrt(n as int),
        is_isqrt(n as int, r as int),
{
    let mut lo: u64 = 0;
    let mut hi: u64 = 4294967296;
    while hi - lo > 1
        invariant
            0 <= lo < hi <= 4294967296,
            (lo as int) * (lo as int) <= n as int,
            (n as int) < (hi as int) * (hi as int),
        decreases hi - lo,
    {
        let mid: u64 = lo + (hi - lo) / 2;
        proof {
            assert((mid as int) * (mid as int) <= 4294967296int * 4294967296int)
                by (nonlinear_arith)
                requires 0 <= mid <= 4294967296int;
        }
        if (mid as u128) * (mid as u128) <= n as u128 {
            lo = mid;
        } else {
            hi = mid;
        }
    }
    proof {
        lemma_isqrt_exists(n as int);
        lemma_isqrt_unique(n as int, lo as int, isqrt(n as int));
    }
    lo
}

} // verus!
