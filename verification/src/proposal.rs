//! Proposal lifecycle: creation of standard and treasury proposals.
//!
//! Each proposal moves through `Active -> {Active (after a vote), closed}`;
//! a treasury proposal additionally reaches executed or reclaimed, each a
//! terminal absorbing state (see `treasury`).

use vstd::prelude::*;

use crate::error::ErrorCode;
use crate::state::GlobalAccount;
use crate::state::ProposalAccount;
use crate::state::ProposalKind;
use crate::state::TreasuryEscrow;
use crate::state::treasury_escrow_wf;

verus! {

/// Creates a standard proposal under the next sequence number, with zero
/// tallies and no treasury fields (the destination placeholder is the
/// author). Refused while the circuit breaker is off. The boundary stores the
/// returned record under its number.
pub fn create_proposal(
    global: &mut GlobalAccount,
    author: u64,
    title: String,
    description: String,
    deadline: i64,
) -> (r: Result<ProposalAccount, ErrorCode>)
    requires
        old(global).system_enabled ==> old(global).proposal_count < u64::MAX,
    ensures
        r is Ok <==> old(global).system_enabled,
        r is Err ==> r->Err_0 == ErrorCode::CircuitBreakerTripped && *final(global) == *old(
            global,
        ),
        r matches Ok(p) ==> {
            &&& *final(global) == (GlobalAccount {
                proposal_count: (old(global).proposal_count + 1) as u64,
                ..*old(global)
            })
            &&& p == (ProposalAccount {
                number: (old(global).proposal_count + 1) as u64,
                author,
                title,
                description,
                yes: 0,
                no: 0,
                deadline,
                is_active: true,
                kind: ProposalKind::Standard,
                transfer_amount: 0,
                transfer_destination: author,
                timelock_seconds: 0,
                executed: false,
            })
        },
{
    if !global.system_enabled {
        return Err(ErrorCode::CircuitBreakerTripped);
    }
    global.proposal_count = global.proposal_count + 1;
    Ok(
        ProposalAccount {
            number: global.proposal_count,
            author,
            title,
            description,
            yes: 0,
            no: 0,
            deadline,
            is_active: true,
            kind: ProposalKind::Standard,
            transfer_amount: 0,
            transfer_destination: author,
            timelock_seconds: 0,
            executed: false,
        },
    )
}

/// Creates a treasury proposal together with its escrow. The escrow is funded
/// before the vote exists: on success the boundary atomically transfers
/// `transfer_amount` from the author's custody balance into the escrow before
/// storing either record. Refused while the circuit breaker is off, and for a
/// zero transfer amount.
pub fn create_treasury_proposal(
    global: &mut GlobalAccount,
    author: u64,
    title: String,
    description: String,
    deadline: i64,
    transfer_amount: u64,
    transfer_destination: u64,
    timelock_seconds: i64,
) -> (r: Result<(ProposalAccount, TreasuryEscrow), ErrorCode>)
    requires
        old(global).system_enabled && transfer_amount > 0 ==> old(global).proposal_count
            < u64::MAX,
    ensures
        r is Ok <==> (old(global).system_enabled && transfer_amount > 0),
        r is Err ==> *final(global) == *old(global) && r->Err_0 == (
        if !old(global).system_enabled {
            ErrorCode::CircuitBreakerTripped
        } else {
            ErrorCode::InvalidAmount
        }),
        r matches Ok(pe) ==> {
            &&& *final(global) == (GlobalAccount {
                proposal_count: (old(global).proposal_count + 1) as u64,
                ..*old(global)
            })
            &&& pe.0 == (ProposalAccount {
                number: (old(global).proposal_count + 1) as u64,
                author,
                title,
                description,
                yes: 0,
                no: 0,
                deadline,
                is_active: true,
                kind: ProposalKind::TreasuryTransfer,
                transfer_amount,
                transfer_destination,
                timelock_seconds,
                executed: false,
            })
            &&& pe.1 == (TreasuryEscrow {
                proposal: (old(global).proposal_count + 1) as u64,
                held: transfer_amount,
            })
            &&& treasury_escrow_wf(pe.0, pe.1)
        },
{
    if !global.system_enabled {
        return Err(ErrorCode::CircuitBreakerTripped);
    }
    if transfer_amount == 0 {
        return Err(ErrorCode::InvalidAmount);
    }
    global.proposal_count = global.proposal_count + 1;
    let proposal = ProposalAccount {
        number: global.proposal_count,
        author,
        title,
        description,
        yes: 0,
        no: 0,
        deadline,
        is_active: true,
        kind: ProposalKind::TreasuryTransfer,
        transfer_amount,
        transfer_destination,
        timelock_seconds,
        executed: false,
    };
    let escrow = TreasuryEscrow { proposal: global.proposal_count, held: transfer_amount };
    Ok((proposal, escrow))
}

} // verus!
