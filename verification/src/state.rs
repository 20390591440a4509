//! Persisted records of the governance engine.
//!
//! The external keyed store holds one record per (type, key) pair; the key of
//! each record type is given on its struct. Identities (public-key
//! equivalents) are opaque comparable values, carried as `u64`; times are Unix
//! seconds, carried as `i64`.

use vstd::prelude::*;

verus! {

/// Score credited to the acting user for every vote cast.
pub const VOTE_SCORE: u64 = 10;

/// Minimum score at which the commendation badge may be claimed.
pub const BADGE_SCORE_THRESHOLD: u64 = 50;

/// Seconds a user must wait between two faucet requests.
pub const FAUCET_COOLDOWN_SECONDS: i64 = 86400;

/// Global configuration; a singleton created once at genesis.
#[derive(Clone, Copy, Debug, PartialEq, Eq, Structural)]
pub struct GlobalAccount {
    /// Identity allowed to run the admin-gated operations.
    pub admin: u64,
    /// Reference token whose balances weigh the votes.
    pub token_mint: u64,
    /// Monotonically increasing proposal counter.
    pub proposal_count: u64,
    /// Circuit breaker: while false, proposal, vote and withdraw paths are paused.
    pub system_enabled: bool,
}

/// Kind of a proposal: a plain question, or one that escrows treasury funds.
#[derive(Clone, Copy, Debug, PartialEq, Eq, Structural)]
pub enum ProposalKind {
    Standard,
    TreasuryTransfer,
}

/// A proposal and its running tallies; keyed by its sequence number.
#[derive(Clone, Debug)]
pub struct ProposalAccount {
    /// Sequence number allocated from `GlobalAccount::proposal_count`.
    pub number: u64,
    /// Identity of the member who created the proposal.
    pub author: u64,
    pub title: String,
    pub description: String,
    /// Summed voting power currently cast for "yes".
    pub yes: u64,
    /// Summed voting power currently cast for "no".
    pub no: u64,
    /// Last Unix second at which votes are accepted.
    pub deadline: i64,
    /// False once the proposal reached a terminal state.
    pub is_active: bool,
    pub kind: ProposalKind,
    /// Amount escrowed for a treasury proposal; 0 for a standard one.
    pub transfer_amount: u64,
    /// Destination identity of a treasury transfer; the author for a standard proposal.
    pub transfer_destination: u64,
    /// Seconds to wait after the deadline before execution.
    pub timelock_seconds: i64,
    /// Set at most once, by whichever of execute or reclaim drains the escrow.
    pub executed: bool,
}

/// One voter's standing on one proposal; keyed by (proposal, voter).
/// Created on the first vote for that pair and never deleted: a withdrawal
/// only clears `voted` and the power snapshot.
#[derive(Clone, Copy, Debug, PartialEq, Eq, Structural)]
pub struct VoterRecord {
    /// Sequence number of the proposal voted on.
    pub proposal: u64,
    /// Identity of the voter the record belongs to.
    pub voter: u64,
    /// Chosen option: true for "yes", false for "no".
    pub vote: bool,
    /// Whether the record currently counts toward a tally.
    pub voted: bool,
    /// Voting power snapshot taken at cast time; 0 once withdrawn.
    pub voting_power: u64,
    /// Staked amount snapshot taken at cast time.
    pub staked_amount: u64,
    /// True while the standing vote was cast by a proxy; such a record is
    /// locked against its own holder until the proxy withdraws it.
    pub voted_by_proxy: bool,
}

/// A member's time-locked stake position; keyed by its owner, one per owner.
#[derive(Clone, Copy, Debug, PartialEq, Eq, Structural)]
pub struct VoterStakeRecord {
    pub owner: u64,
    /// Tokens currently locked in the pooled vault.
    pub staked_amount: u64,
    /// First Unix second at which the stake may be withdrawn.
    pub lock_end_time: i64,
    /// Duration of the lock window the position was last deposited with.
    pub original_lock_days: i64,
    /// Voting-power multiplier earned by the lock; 1 when unstaked.
    pub multiplier: u64,
}

/// A registered delegate able to vote on behalf of its delegators;
/// keyed by the delegate's identity. Removal deletes the record.
#[derive(Clone, Copy, Debug, PartialEq, Eq, Structural)]
pub struct DelegateProfile {
    /// Identity that may act as this delegate.
    pub authority: u64,
    pub is_active: bool,
}

/// One user's outgoing delegation; keyed by the delegator's identity, so at
/// most one exists per delegator. Revocation deletes the record.
#[derive(Clone, Copy, Debug, PartialEq, Eq, Structural)]
pub struct DelegationRecord {
    pub delegator: u64,
    pub delegate_target: u64,
}

/// Faucet rate-limiting state; keyed by the requesting user.
#[derive(Clone, Copy, Debug, PartialEq, Eq, Structural)]
pub struct FaucetRecord {
    /// Unix second of the last granted request; 0 before the first one.
    pub last_request_time: i64,
}

/// Participation statistics; keyed by the acting user. A proxy vote credits
/// the proxy, not the delegator.
#[derive(Clone, Copy, Debug, PartialEq, Eq, Structural)]
pub struct UserStats {
    pub user: u64,
    /// Total number of votes the user has cast.
    pub proposal_count: u64,
    pub last_vote_time: i64,
    /// Participation score; grows by `VOTE_SCORE` per vote, never shrinks.
    pub score: u64,
    pub badge_claimed: bool,
}

/// Funds held for one treasury proposal; keyed by that proposal's sequence
/// number. Fully drained exactly once, to the destination or back to the
/// author.
#[derive(Clone, Copy, Debug, PartialEq, Eq, Structural)]
pub struct TreasuryEscrow {
    /// Sequence number of the owning proposal.
    pub proposal: u64,
    /// Balance currently held at the custody ledger under escrow authority.
    pub held: u64,
}

/// Linkage between a treasury proposal and its escrow: the escrow belongs to
/// the proposal, holds the full transfer amount until the proposal is
/// executed, and is empty afterwards. Creation establishes this and the
/// treasury protocol preserves it.
pub open spec fn treasury_escrow_wf(p: ProposalAccount, e: TreasuryEscrow) -> bool {
    &&& e.proposal == p.number
    &&& e.held == (if p.executed {
        0u64
    } else {
        p.transfer_amount
    })
}

/// The voting-power multiplier always lies in the closed set {1, .., 5}:
/// 1 while unstaked, 2 to 5 as earned by the lock duration.
pub open spec fn valid_multiplier(m: u64) -> bool {
    1 <= m <= 5
}

impl VoterStakeRecord {
    /// Well-formedness that every operation establishes and preserves.
    pub open spec fn wf(self) -> bool {
        valid_multiplier(self.multiplier)
    }
}

/// Power a record currently contributes to its proposal's "yes" tally.
pub open spec fn yes_contribution(r: VoterRecord) -> int {
    if r.voted && r.vote {
        r.voting_power as int
    } else {
        0
    }
}

/// Power a record currently contributes to its proposal's "no" tally.
pub open spec fn no_contribution(r: VoterRecord) -> int {
    if r.voted && !r.vote {
        r.voting_power as int
    } else {
        0
    }
}

/// Tallies of `p` after one voter's standing changes from `old_r` to `new_r`:
/// each side loses the old record's contribution and gains the new one's.
/// Every vote-ledger mutation has exactly this shape, which is what keeps the
/// tallies equal to the sum of the standing records.
pub open spec fn tally_after(p: ProposalAccount, old_r: VoterRecord, new_r: VoterRecord) -> ProposalAccount {
    ProposalAccount {
        yes: (p.yes - yes_contribution(old_r) + yes_contribution(new_r)) as u64,
        no: (p.no - no_contribution(old_r) + no_contribution(new_r)) as u64,
        ..p
    }
}

/// The tally arithmetic of `tally_after` stays within `u64`.
pub open spec fn tally_fits(p: ProposalAccount, old_r: VoterRecord, new_r: VoterRecord) -> bool {
    &&& 0 <= p.yes - yes_contribution(old_r) + yes_contribution(new_r) <= u64::MAX
    &&& 0 <= p.no - no_contribution(old_r) + no_contribution(new_r) <= u64::MAX
}

} // verus!
