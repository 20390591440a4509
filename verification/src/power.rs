//! Voting-power calculator.
//!
//! Power is a quadratic function of holdings: the floor square root of the
//! liquid balance plus the floor square root of the staked amount times the
//! stake's multiplier. The square root is a deterministic integer algorithm,
//! so every deployment agrees bit for bit on the same inputs — the truncation
//! direction changes the tally.

use vstd::prelude::*;

use crate::state::valid_multiplier;

verus! {

/// Largest integer whose square does not exceed `n`.
pub open spec fn sqrt_floor(n: nat) -> nat
    decreases n,
{
    if n == 0 {
        0
    } else {
        let s = sqrt_floor((n - 1) as nat);
        if (s + 1) * (s + 1) <= n {
            s + 1
        } else {
            s
        }
    }
}

/// `sqrt_floor(n)` is the floor of the square root of `n`: its square is at
/// most `n` and the next square is beyond `n`.
pub proof fn lemma_sqrt_floor_bounds(n: nat)
    ensures
        sqrt_floor(n) * sqrt_floor(n) <= n,
        n < (sqrt_floor(n) + 1) * (sqrt_floor(n) + 1),
    decreases n,
{
    if n == 0 {
        assert((sqrt_floor(n) + 1) * (sqrt_floor(n) + 1) == 1) by (nonlinear_arith)
            requires
                sqrt_floor(n) == 0;
    } else {
        lemma_sqrt_floor_bounds((n - 1) as nat);
        let s = sqrt_floor((n - 1) as nat);
        if (s + 1) * (s + 1) <= n {
            assert(sqrt_floor(n) == s + 1);
            assert((s + 1) * (s + 1) < (s + 2) * (s + 2)) by (nonlinear_arith);
            assert(n < (sqrt_floor(n) + 1) * (sqrt_floor(n) + 1));
        } else {
            assert(sqrt_floor(n) == s);
        }
    }
}

/// The floor square root is the only value sandwiched between the two squares.
pub proof fn lemma_sqrt_floor_unique(n: nat, r: nat)
    requires
        r * r <= n,
        n < (r + 1) * (r + 1),
    ensures
        r == sqrt_floor(n),
{
    lemma_sqrt_floor_bounds(n);
    let s = sqrt_floor(n);
    assert(r == s) by (nonlinear_arith)
        requires
            r * r <= n,
            n < (r + 1) * (r + 1),
            s * s <= n,
            n < (s + 1) * (s + 1);
}

/// The floor square root of a 64-bit value fits in 32 bits.
pub proof fn lemma_sqrt_floor_fits_u32(n: nat)
    requires
        n <= u64::MAX,
    ensures
        sqrt_floor(n) <= 0xFFFF_FFFF,
{
    lemma_sqrt_floor_bounds(n);
    assert(sqrt_floor(n) <= 0xFFFF_FFFF) by (nonlinear_arith)
        requires
            sqrt_floor(n) * sqrt_floor(n) <= n,
            n <= u64::MAX;
}

/// Floor square root, by binary search on the answer.
pub fn isqrt(n: u64) -> (r: u64)
    ensures
        r == sqrt_floor(n as nat),
        r * r <= n < (r + 1) * (r + 1),
{
    let mut lo: u64 = 0;
    let mut hi: u64 = 0x1_0000_0000;
    while lo + 1 < hi
        invariant
            lo < hi <= 0x1_0000_0000u64,
            (lo as int) * (lo as int) <= n as int,
            (hi as int) * (hi as int) > n as int,
        decreases hi - lo,
    {
        let mid = lo + (hi - lo) / 2;
        assert(lo < mid < hi);
        assert((mid as int) * (mid as int) <= 0xFFFF_FFFFu64 * 0xFFFF_FFFFu64) by (nonlinear_arith)
            requires
                mid <= 0xFFFF_FFFFu64;
        if mid * mid <= n {
            lo = mid;
        } else {
            hi = mid;
        }
    }
    proof {
        lemma_sqrt_floor_unique(n as nat, lo as nat);
    }
    lo
}

/// Voting power of a member holding `liquid` unlocked tokens and `staked`
/// locked tokens under the given multiplier.
pub open spec fn spec_voting_power(liquid: u64, staked: u64, multiplier: u64) -> int {
    sqrt_floor(liquid as nat) + sqrt_floor(staked as nat) * multiplier
}

/// Computes `floor(sqrt(liquid)) + floor(sqrt(staked)) * multiplier`.
/// With the multiplier in its closed set {1, .., 5} the sum stays far below
/// `u64::MAX`, so the computation never overflows.
pub fn compute_voting_power(liquid: u64, staked: u64, multiplier: u64) -> (r: u64)
    requires
        valid_multiplier(multiplier),
    ensures
        r == spec_voting_power(liquid, staked, multiplier),
{
    let liquid_power = isqrt(liquid);
    let staked_sqrt = isqrt(staked);
    proof {
        lemma_sqrt_floor_fits_u32(liquid as nat);
        lemma_sqrt_floor_fits_u32(staked as nat);
        assert(staked_sqrt * multiplier <= 0xFFFF_FFFFu64 * 5) by (nonlinear_arith)
            requires
                staked_sqrt <= 0xFFFF_FFFFu64,
                multiplier <= 5;
    }
    let staked_power = staked_sqrt * multiplier;
    liquid_power + staked_power
}

} // verus!
