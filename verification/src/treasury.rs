//! Treasury escrow protocol: execute a passed proposal or reclaim a failed
//! one.
//!
//! `executed` is a single absorbing flag shared by both terminal transitions,
//! so at most one disbursement ever leaves an escrow. On success the boundary
//! transfers the returned amount out of the escrow account — to the stored
//! destination for an execution, back to the author for a reclaim.

use vstd::prelude::*;

use crate::error::ErrorCode;
use crate::state::ProposalAccount;
use crate::state::ProposalKind;
use crate::state::TreasuryEscrow;
use crate::state::treasury_escrow_wf;

verus! {

/// Validation phase of `execute_proposal`: the first failing condition, in
/// the order the engine tests them, or `None` when execution is owed.
pub open spec fn execute_check(p: ProposalAccount, destination_owner: u64, now: i64) -> Option<
    ErrorCode,
> {
    if !(p.kind is TreasuryTransfer) {
        Some(ErrorCode::NotTreasuryProposal)
    } else if p.executed {
        Some(ErrorCode::AlreadyExecuted)
    } else if now <= p.deadline {
        Some(ErrorCode::ProposalNotEnded)
    } else if now < p.deadline + p.timelock_seconds {
        Some(ErrorCode::TimelockNotPassed)
    } else if p.yes <= p.no {
        Some(ErrorCode::ProposalNotPassed)
    } else if destination_owner != p.transfer_destination {
        Some(ErrorCode::Unauthorized)
    } else {
        None
    }
}

/// Validation phase of `reclaim_proposal_funds`: the first failing condition,
/// in the order the engine tests them, or `None` when the reclaim is owed.
pub open spec fn reclaim_check(p: ProposalAccount, caller: u64, now: i64) -> Option<ErrorCode> {
    if !(p.kind is TreasuryTransfer) {
        Some(ErrorCode::NotTreasuryProposal)
    } else if caller != p.author {
        Some(ErrorCode::Unauthorized)
    } else if p.executed {
        Some(ErrorCode::AlreadyExecuted)
    } else if now <= p.deadline {
        Some(ErrorCode::ProposalNotEnded)
    } else if p.yes > p.no {
        Some(ErrorCode::ProposalPassed)
    } else {
        None
    }
}

/// Executes a passed treasury proposal: once the deadline and the
/// post-deadline timelock are over, the vote stands at `yes > no`, and the
/// presented destination account is owned by the stored destination identity,
/// the escrow is drained and the proposal closed. Callable by anyone — every
/// condition is objectively checkable. Returns the amount the boundary must
/// transfer from the escrow to the destination.
pub fn execute_proposal(
    proposal: &mut ProposalAccount,
    escrow: &mut TreasuryEscrow,
    destination_owner: u64,
    now: i64,
) -> (r: Result<u64, ErrorCode>)
    requires
        i64::MIN <= old(proposal).deadline + old(proposal).timelock_seconds <= i64::MAX,
        old(proposal).kind is TreasuryTransfer ==> treasury_escrow_wf(
            *old(proposal),
            *old(escrow),
        ),
    ensures
        r is Ok <==> execute_check(*old(proposal), destination_owner, now) is None,
        r is Err ==> {
            &&& Some(r->Err_0) == execute_check(*old(proposal), destination_owner, now)
            &&& *final(proposal) == *old(proposal)
            &&& *final(escrow) == *old(escrow)
        },
        r matches Ok(amount) ==> {
            &&& amount == old(proposal).transfer_amount
            &&& amount == old(escrow).held
            &&& *final(proposal) == (ProposalAccount {
                executed: true,
                is_active: false,
                ..*old(proposal)
            })
            &&& *final(escrow) == (TreasuryEscrow { held: 0, ..*old(escrow) })
            &&& treasury_escrow_wf(*final(proposal), *final(escrow))
        },
{
    if !matches!(proposal.kind, ProposalKind::TreasuryTransfer) {
        return Err(ErrorCode::NotTreasuryProposal);
    }
    if proposal.executed {
        return Err(ErrorCode::AlreadyExecuted);
    }
    if now <= proposal.deadline {
        return Err(ErrorCode::ProposalNotEnded);
    }
    let execution_unlock_time = proposal.deadline + proposal.timelock_seconds;
    if now < execution_unlock_time {
        return Err(ErrorCode::TimelockNotPassed);
    }
    if proposal.yes <= proposal.no {
        return Err(ErrorCode::ProposalNotPassed);
    }
    if destination_owner != proposal.transfer_destination {
        return Err(ErrorCode::Unauthorized);
    }
    proposal.executed = true;
    proposal.is_active = false;
    escrow.held = 0;
    Ok(proposal.transfer_amount)
}

/// Reclaims the escrow of a failed treasury proposal: author-only, after the
/// deadline, and only while the vote stands at `no >= yes`. Returns the
/// amount the boundary must transfer from the escrow back to the author.
pub fn reclaim_proposal_funds(
    proposal: &mut ProposalAccount,
    escrow: &mut TreasuryEscrow,
    caller: u64,
    now: i64,
) -> (r: Result<u64, ErrorCode>)
    requires
        old(proposal).kind is TreasuryTransfer ==> treasury_escrow_wf(
            *old(proposal),
            *old(escrow),
        ),
    ensures
        r is Ok <==> reclaim_check(*old(proposal), caller, now) is None,
        r is Err ==> {
            &&& Some(r->Err_0) == reclaim_check(*old(proposal), caller, now)
            &&& *final(proposal) == *old(proposal)
            &&& *final(escrow) == *old(escrow)
        },
        r matches Ok(amount) ==> {
            &&& amount == old(proposal).transfer_amount
            &&& amount == old(escrow).held
            &&& *final(proposal) == (ProposalAccount {
                executed: true,
                is_active: false,
                ..*old(proposal)
            })
            &&& *final(escrow) == (TreasuryEscrow { held: 0, ..*old(escrow) })
            &&& treasury_escrow_wf(*final(proposal), *final(escrow))
        },
{
    if !matches!(proposal.kind, ProposalKind::TreasuryTransfer) {
        return Err(ErrorCode::NotTreasuryProposal);
    }
    if caller != proposal.author {
        return Err(ErrorCode::Unauthorized);
    }
    if proposal.executed {
        return Err(ErrorCode::AlreadyExecuted);
    }
    if now <= proposal.deadline {
        return Err(ErrorCode::ProposalNotEnded);
    }
    if proposal.yes > proposal.no {
        return Err(ErrorCode::ProposalPassed);
    }
    proposal.executed = true;
    proposal.is_active = false;
    escrow.held = 0;
    Ok(proposal.transfer_amount)
}

/// Law: execution and reclaim are mutually exclusive and safe to repeat.
/// Both terminal transitions set the one absorbing `executed` flag, and on an
/// executed treasury proposal every further `execute_proposal` call — by
/// anyone, at any time, toward any destination — fails with
/// `AlreadyExecuted`, as does every further `reclaim_proposal_funds` call by
/// the author. (A reclaim attempt by anyone else fails even earlier, with
/// `Unauthorized`.)
pub proof fn lemma_disbursal_at_most_once(
    p: ProposalAccount,
    destination_owner: u64,
    caller: u64,
    now: i64,
)
    requires
        p.kind is TreasuryTransfer,
        p.executed,
    ensures
        execute_check(p, destination_owner, now) == Some(ErrorCode::AlreadyExecuted),
        reclaim_check(p, caller, now) is Some,
        caller == p.author ==> reclaim_check(p, caller, now) == Some(ErrorCode::AlreadyExecuted),
{
}

} // verus!
