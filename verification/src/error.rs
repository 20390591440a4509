//! Failure taxonomy of the governance engine.
//!
//! Every entry point surfaces exactly one of these to the caller; none is
//! retried internally and none leaves a partial mutation behind. Arithmetic
//! overflow on weight or amount accumulation is not in the taxonomy: it is
//! treated as a broken invariant, so the entry points exclude it by
//! precondition instead of returning an error.

use vstd::prelude::*;

verus! {

#[derive(Clone, Copy, Debug, PartialEq, Eq, Structural)]
pub enum ErrorCode {
    // Proposal and voting errors
    /// The proposal has been closed (executed or reclaimed).
    ProposalNotActive,
    /// The proposal's deadline has passed.
    ProposalExpired,
    /// The voter already voted for this option; a re-vote must switch sides.
    AlreadyVoted,
    /// The global circuit breaker is off; all governance paths are paused.
    CircuitBreakerTripped,
    /// The vote option is not recognised.
    InvalidVoteOption,
    /// The caller's identity does not match the identity the operation demands.
    Unauthorized,

    // Staking errors
    /// The stake position's lock window has not ended yet.
    TokensLocked,
    /// A new lock may not be shorter than the one it replaces.
    LockDurationDowngrade,
    /// The stake position holds nothing to return.
    NoTokensToUnstake,
    /// The computed voting power is zero.
    NoVotingPower,
    /// The token account does not belong to the expected owner or mint.
    InvalidTokenAccount,
    /// The lock duration is not one of the supported values.
    InvalidLockDuration,

    // Faucet errors
    /// A faucet request came before the cooldown ran out.
    FaucetCooldown,

    // Delegation errors
    /// The proxy has no active delegate profile.
    InvalidDelegate,
    /// A direct vote already exists for this record.
    DirectVoteExists,
    /// A delegation may not target its own delegator.
    DelegationLoop,
    /// A registered delegate may not delegate in turn (no chains).
    DelegateCannotDelegate,
    /// A user with an outgoing delegation may not become a delegate.
    DelegatorCannotBeDelegate,
    /// A user with an outgoing delegation may not vote directly.
    DelegatorsCannotVote,
    /// The record was cast by a proxy and is locked against the holder.
    ProxyVoteLocked,

    // Treasury errors
    /// The proposal's voting window has not ended yet.
    ProposalNotEnded,
    /// The post-deadline timelock has not run out yet.
    TimelockNotPassed,
    /// The proposal did not pass (execution needs yes > no).
    ProposalNotPassed,
    /// The proposal passed, so its funds cannot be reclaimed.
    ProposalPassed,
    /// The proposal's escrow was already drained once.
    AlreadyExecuted,
    /// The transfer amount must be greater than zero.
    InvalidAmount,
    /// The proposal is not a treasury proposal.
    NotTreasuryProposal,

    // Reward errors
    /// The caller's score is below the badge threshold.
    InsufficientScore,
    /// The badge was already claimed.
    AlreadyClaimed,
}

} // verus!
