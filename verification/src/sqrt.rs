//! Integer square roots.

use vstd::prelude::*;

verus! {

/// `r` is the integer square root of `n`: the largest natural number whose
/// square does not exceed `n`.
pub open spec fn is_integer_sqrt(r: nat, n: nat) -> bool {
    r * r <= n < (r + 1) * (r + 1)
}

/// Computes the integer square root of `n` by bisection.
///
/// The answer always lies below 65536, so every square that the search forms
/// fits in 64 bits.
pub fn integer_sqrt(n: u32) -> (r: u32)
    ensures
        is_integer_sqrt(r as nat, n as nat),
        r <= 0xffff,
{
    let mut lo: u64 = 0;
    let mut hi: u64 = 0x1_0000;
    while hi - lo > 1
        invariant
            lo < hi <= 0x1_0000,
            lo * lo <= n,
            n < hi * hi,
        decreases hi - lo,
    {
        let mid: u64 = lo + (hi - lo) / 2;
        assert(mid * mid <= 0xffff * 0xffff) by (nonlinear_arith)
            requires
                mid <= 0xffff,
        ;
        if mid * mid <= n as u64 {
            lo = mid;
        } else {
            hi = mid;
        }
    }
    lo as u32
}

} // verus!
