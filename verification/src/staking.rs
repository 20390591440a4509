//! Stake ledger: time-locked positions and their voting-power multipliers.
//!
//! The custody transfers belong to the boundary: a successful deposit is
//! matched there by moving `amount` into the pooled vault, and a successful
//! unstake by moving the returned amount back to the owner.

use vstd::prelude::*;

use crate::error::ErrorCode;
use crate::state::VoterStakeRecord;

verus! {

/// The lock windows the engine accepts, in seconds.
pub open spec fn valid_lock_duration(d: i64) -> bool {
    d == 30 || d == 90 || d == 180 || d == 360
}

/// Multiplier earned by a lock window, by exact match: 30 earns 2, 90 earns
/// 3, 180 earns 4, 360 earns 5. Any other duration is rejected before this is
/// used.
pub open spec fn lock_multiplier(d: i64) -> u64
    recommends
        valid_lock_duration(d),
{
    if d == 30 {
        2
    } else if d == 90 {
        3
    } else if d == 180 {
        4
    } else {
        5
    }
}

/// Opens the caller's stake position: zero stake, multiplier 1. The store
/// holds at most one position per owner, so re-opening fails at the boundary.
pub fn initialize_stake(owner: u64) -> (r: VoterStakeRecord)
    ensures
        r == (VoterStakeRecord {
            owner,
            staked_amount: 0,
            lock_end_time: 0,
            original_lock_days: 0,
            multiplier: 1,
        }),
        r.wf(),
{
    VoterStakeRecord { owner, staked_amount: 0, lock_end_time: 0, original_lock_days: 0, multiplier: 1 }
}

/// Adds `amount` to the position and restarts the lock window at `now`:
/// depositing while already locked extends or overwrites the window, it does
/// not stack locks. The multiplier is recomputed from the new duration alone.
/// Any unsupported duration fails with `InvalidLockDuration` and leaves the
/// position untouched.
pub fn deposit_tokens(
    stake_record: &mut VoterStakeRecord,
    amount: u64,
    lock_duration: i64,
    now: i64,
) -> (r: Result<(), ErrorCode>)
    requires
        amount > 0,
        valid_lock_duration(lock_duration) ==> {
            &&& old(stake_record).staked_amount + amount <= u64::MAX
            &&& now + lock_duration <= i64::MAX
        },
    ensures
        r is Ok <==> valid_lock_duration(lock_duration),
        r is Err ==> r->Err_0 == ErrorCode::InvalidLockDuration
            && *final(stake_record) == *old(stake_record),
        r is Ok ==> *final(stake_record) == (VoterStakeRecord {
            owner: old(stake_record).owner,
            staked_amount: (old(stake_record).staked_amount + amount) as u64,
            lock_end_time: (now + lock_duration) as i64,
            original_lock_days: lock_duration,
            multiplier: lock_multiplier(lock_duration),
        }),
        old(stake_record).wf() ==> final(stake_record).wf(),
{
    let multiplier: u64 = match lock_duration {
        30 => 2,
        90 => 3,
        180 => 4,
        360 => 5,
        _ => {
            return Err(ErrorCode::InvalidLockDuration);
        },
    };
    stake_record.staked_amount = stake_record.staked_amount + amount;
    stake_record.lock_end_time = now + lock_duration;
    stake_record.original_lock_days = lock_duration;
    stake_record.multiplier = multiplier;
    Ok(())
}

/// Returns the full staked amount once the lock window has ended, resetting
/// the position to zero stake and multiplier 1. The boundary transfers the
/// returned amount from the vault back to the owner.
pub fn unstake_tokens(stake_record: &mut VoterStakeRecord, now: i64) -> (r: Result<
    u64,
    ErrorCode,
>)
    ensures
        r is Ok <==> (now >= old(stake_record).lock_end_time && old(stake_record).staked_amount
            > 0),
        r is Err ==> *final(stake_record) == *old(stake_record) && r->Err_0 == (
        if now < old(stake_record).lock_end_time {
            ErrorCode::TokensLocked
        } else {
            ErrorCode::NoTokensToUnstake
        }),
        r is Ok ==> r->Ok_0 == old(stake_record).staked_amount && *final(stake_record) == (
        VoterStakeRecord {
            staked_amount: 0,
            lock_end_time: 0,
            multiplier: 1,
            ..*old(stake_record)
        }),
        old(stake_record).wf() ==> final(stake_record).wf(),
{
    if now < stake_record.lock_end_time {
        return Err(ErrorCode::TokensLocked);
    }
    if stake_record.staked_amount == 0 {
        return Err(ErrorCode::NoTokensToUnstake);
    }
    let amount = stake_record.staked_amount;
    stake_record.staked_amount = 0;
    stake_record.multiplier = 1;
    stake_record.lock_end_time = 0;
    Ok(amount)
}

} // verus!
