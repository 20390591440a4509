//! Genesis and admin-gated configuration.
//!
//! The admin mint itself is a custody-ledger call at the boundary; the engine
//! only supplies the base-unit scaling it needs.

use vstd::prelude::*;

use crate::error::ErrorCode;
use crate::state::GlobalAccount;

verus! {

/// Creates the global configuration singleton: the caller becomes admin, the
/// given token becomes the reference token, and the system starts enabled.
pub fn initialize(admin: u64, token_mint: u64) -> (r: GlobalAccount)
    ensures
        r == (GlobalAccount { admin, token_mint, proposal_count: 0, system_enabled: true }),
{
    GlobalAccount { admin, token_mint, proposal_count: 0, system_enabled: true }
}

/// Flips the circuit breaker. Admin-only; while the breaker is off, every
/// proposal, vote and withdraw path refuses with `CircuitBreakerTripped`.
pub fn toggle_circuit_breaker(global: &mut GlobalAccount, caller: u64) -> (r: Result<(), ErrorCode>)
    ensures
        r is Ok <==> caller == old(global).admin,
        r is Err ==> r->Err_0 == ErrorCode::Unauthorized && *final(global) == *old(global),
        r is Ok ==> *final(global) == (GlobalAccount {
            system_enabled: !old(global).system_enabled,
            ..*old(global)
        }),
{
    if global.admin != caller {
        return Err(ErrorCode::Unauthorized);
    }
    global.system_enabled = !global.system_enabled;
    Ok(())
}

/// `10^e`.
pub open spec fn pow10(e: nat) -> nat
    decreases e,
{
    if e == 0 {
        1
    } else {
        10 * pow10((e - 1) as nat)
    }
}

proof fn lemma_pow10_monotone(e1: nat, e2: nat)
    requires
        e1 <= e2,
    ensures
        pow10(e1) <= pow10(e2),
    decreases e2,
{
    if e1 < e2 {
        lemma_pow10_monotone(e1, (e2 - 1) as nat);
    }
}

/// Scales a whole-token amount to base units: `amount * 10^decimals`, or
/// `None` where that does not fit in a `u64`. The mint's `decimals` never
/// exceeds 19, beyond which even a single base unit would overflow.
pub fn scale_to_base_units(amount: u64, decimals: u8) -> (r: Option<u64>)
    requires
        decimals <= 19,
    ensures
        r matches Some(v) ==> v == amount * pow10(decimals as nat),
        r is None ==> amount * pow10(decimals as nat) > u64::MAX,
{
    let mut p: u64 = 1;
    let mut i: u8 = 0;
    while i < decimals
        invariant
            i <= decimals <= 19,
            p == pow10(i as nat),
        decreases decimals - i,
    {
        proof {
            lemma_pow10_monotone(i as nat, 18);
            reveal_with_fuel(pow10, 20);
            assert(pow10(18) == 0x0DE0_B6B3_A764_0000);
        }
        p = p * 10;
        i = i + 1;
    }
    amount.checked_mul(p)
}

} // verus!
