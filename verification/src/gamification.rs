//! Cosmetic rewards: faucet rate limiting and the participation badge.
//!
//! Independent of the governance invariants. The actual minting — faucet
//! tokens and the badge token with its metadata — is custody-ledger work at
//! the boundary; the engine decides whether a grant is due and keeps the
//! records.

use vstd::prelude::*;

use crate::error::ErrorCode;
use crate::state::BADGE_SCORE_THRESHOLD;
use crate::state::FAUCET_COOLDOWN_SECONDS;
use crate::state::FaucetRecord;
use crate::state::UserStats;

verus! {

/// Grants a faucet request unless one was already granted within the
/// cooldown. On success the record moves to `now` and the boundary mints the
/// faucet allowance to the caller.
pub fn request_tokens(faucet: &mut FaucetRecord, now: i64) -> (r: Result<(), ErrorCode>)
    requires
        old(faucet).last_request_time > 0 ==> old(faucet).last_request_time
            + FAUCET_COOLDOWN_SECONDS <= i64::MAX,
    ensures
        r is Ok <==> (old(faucet).last_request_time <= 0 || now >= old(faucet).last_request_time
            + FAUCET_COOLDOWN_SECONDS),
        r is Err ==> r->Err_0 == ErrorCode::FaucetCooldown && *final(faucet) == *old(faucet),
        r is Ok ==> *final(faucet) == (FaucetRecord { last_request_time: now }),
{
    if faucet.last_request_time > 0 && now < faucet.last_request_time + FAUCET_COOLDOWN_SECONDS {
        return Err(ErrorCode::FaucetCooldown);
    }
    faucet.last_request_time = now;
    Ok(())
}

/// Claims the participation badge once the score has reached the threshold;
/// the claim is recorded so it can happen at most once. On success the
/// boundary mints the badge token to the caller.
pub fn claim_badge(stats: &mut UserStats) -> (r: Result<(), ErrorCode>)
    ensures
        r is Ok <==> (old(stats).score >= BADGE_SCORE_THRESHOLD && !old(stats).badge_claimed),
        r is Err ==> *final(stats) == *old(stats) && r->Err_0 == (
        if old(stats).score < BADGE_SCORE_THRESHOLD {
            ErrorCode::InsufficientScore
        } else {
            ErrorCode::AlreadyClaimed
        }),
        r is Ok ==> *final(stats) == (UserStats { badge_claimed: true, ..*old(stats) }),
{
    if stats.score < BADGE_SCORE_THRESHOLD {
        return Err(ErrorCode::InsufficientScore);
    }
    if stats.badge_claimed {
        return Err(ErrorCode::AlreadyClaimed);
    }
    stats.badge_claimed = true;
    Ok(())
}

} // verus!
