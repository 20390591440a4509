//! Vote ledger: direct votes, proxy votes, and withdrawals.
//!
//! Power is computed fresh at cast time from the voter's liquid balance and
//! stake position; the record snapshots it, and every tally move is exactly
//! the snapshot the record carries (`tally_after`), so the tallies stay equal
//! to the sum of the standing records (see `tally`). A vote cast by a proxy
//! is locked against its holder until the proxy withdraws it.
//!
//! The boundary hands in the records it fetched for the (proposal, voter)
//! pair, the voter's liquid balance as the custody ledger reports it, the
//! answer of the delegation-record lookup, and the current time.

use vstd::prelude::*;

use crate::error::ErrorCode;
use crate::power::compute_voting_power;
use crate::power::spec_voting_power;
use crate::state::DelegateProfile;
use crate::state::DelegationRecord;
use crate::state::GlobalAccount;
use crate::state::ProposalAccount;
use crate::state::UserStats;
use crate::state::VOTE_SCORE;
use crate::state::VoterRecord;
use crate::state::VoterStakeRecord;
use crate::state::tally_after;
use crate::state::tally_fits;

verus! {

/// Staked amount a consumer reads off an optional stake position: an absent
/// position counts as never staked.
pub open spec fn stake_amount_of(stake: Option<&VoterStakeRecord>) -> u64 {
    match stake {
        Some(s) => s.staked_amount,
        None => 0,
    }
}

/// Multiplier a consumer reads off an optional stake position: an absent
/// position counts as multiplier 1.
pub open spec fn stake_multiplier_of(stake: Option<&VoterStakeRecord>) -> u64 {
    match stake {
        Some(s) => s.multiplier,
        None => 1,
    }
}

/// Voting power of a member holding `liquid` unlocked tokens and the given
/// stake position.
pub open spec fn member_power(liquid: u64, stake: Option<&VoterStakeRecord>) -> int {
    spec_voting_power(liquid, stake_amount_of(stake), stake_multiplier_of(stake))
}

/// Validation phase of `vote`: the first failing condition, in the order the
/// engine tests them, or `None` when the vote is owed.
pub open spec fn vote_check(
    global: GlobalAccount,
    p: ProposalAccount,
    rec: VoterRecord,
    has_delegation: bool,
    power: int,
    now: i64,
    vote_yes: bool,
) -> Option<ErrorCode> {
    if !global.system_enabled {
        Some(ErrorCode::CircuitBreakerTripped)
    } else if !p.is_active {
        Some(ErrorCode::ProposalNotActive)
    } else if now > p.deadline {
        Some(ErrorCode::ProposalExpired)
    } else if has_delegation {
        Some(ErrorCode::DelegatorsCannotVote)
    } else if power <= 0 {
        Some(ErrorCode::NoVotingPower)
    } else if rec.voted && rec.voted_by_proxy {
        Some(ErrorCode::ProxyVoteLocked)
    } else if rec.voted && rec.vote == vote_yes {
        Some(ErrorCode::AlreadyVoted)
    } else {
        None
    }
}

/// The record after a successful direct vote. A standing record keeps its
/// identity fields and loses any leftover proxy mark; a record not currently
/// voting (fresh from the store, or withdrawn) is claimed for this proposal
/// and voter.
pub open spec fn vote_applied_record(
    rec: VoterRecord,
    proposal_number: u64,
    voter: u64,
    power: u64,
    staked: u64,
    vote_yes: bool,
) -> VoterRecord {
    VoterRecord {
        proposal: if rec.voted {
            rec.proposal
        } else {
            proposal_number
        },
        voter: if rec.voted {
            rec.voter
        } else {
            voter
        },
        vote: vote_yes,
        voted: true,
        voting_power: power,
        staked_amount: staked,
        voted_by_proxy: if rec.voted {
            false
        } else {
            rec.voted_by_proxy
        },
    }
}

/// Participation stats after one more vote by `user` at `now`: the count
/// grows by one, the score by `VOTE_SCORE`. A never-used stats record is
/// claimed for `user` with a fresh score first.
pub open spec fn stats_credit(stats: UserStats, user: u64, now: i64) -> UserStats {
    UserStats {
        user: if stats.proposal_count == 0 {
            user
        } else {
            stats.user
        },
        proposal_count: (stats.proposal_count + 1) as u64,
        last_vote_time: now,
        score: ((if stats.proposal_count == 0 {
            0
        } else {
            stats.score as int
        }) + VOTE_SCORE) as u64,
        badge_claimed: stats.badge_claimed,
    }
}

/// The stats arithmetic of `stats_credit` stays within `u64`.
pub open spec fn stats_credit_fits(stats: UserStats) -> bool {
    &&& stats.proposal_count < u64::MAX
    &&& (stats.proposal_count != 0 ==> stats.score + VOTE_SCORE <= u64::MAX)
}

/// Casts or switches a direct vote.
///
/// The voter must not be delegating (`has_delegation` is the lookup of the
/// voter's outgoing `DelegationRecord`): delegating forfeits direct voting,
/// whatever the balances. Power is computed fresh from the voter's current
/// holdings. A standing record may only be switched to the other option —
/// never re-affirmed — and never while it is proxy-cast; the old snapshot
/// leaves its tally and the new power enters the other one. A first (or
/// re-entered) vote adds the new power only. Success also credits the voter's
/// participation stats.
pub fn vote(
    global: &GlobalAccount,
    proposal: &mut ProposalAccount,
    record: &mut VoterRecord,
    stats: &mut UserStats,
    voter: u64,
    liquid_balance: u64,
    stake_record: Option<&VoterStakeRecord>,
    has_delegation: bool,
    now: i64,
    vote_yes: bool,
) -> (r: Result<(), ErrorCode>)
    requires
        stake_record matches Some(s) ==> s.wf(),
        ({
            let w = member_power(liquid_balance, stake_record);
            vote_check(*global, *old(proposal), *old(record), has_delegation, w, now, vote_yes)
                is None ==> {
                &&& tally_fits(
                    *old(proposal),
                    *old(record),
                    vote_applied_record(
                        *old(record),
                        old(proposal).number,
                        voter,
                        w as u64,
                        stake_amount_of(stake_record),
                        vote_yes,
                    ),
                )
                &&& stats_credit_fits(*old(stats))
            }
        }),
    ensures
        ({
            let w = member_power(liquid_balance, stake_record);
            let new_rec = vote_applied_record(
                *old(record),
                old(proposal).number,
                voter,
                w as u64,
                stake_amount_of(stake_record),
                vote_yes,
            );
            match r {
                Err(e) => {
                    &&& Some(e) == vote_check(
                        *global,
                        *old(proposal),
                        *old(record),
                        has_delegation,
                        w,
                        now,
                        vote_yes,
                    )
                    &&& *final(proposal) == *old(proposal)
                    &&& *final(record) == *old(record)
                    &&& *final(stats) == *old(stats)
                },
                Ok(()) => {
                    &&& vote_check(
                        *global,
                        *old(proposal),
                        *old(record),
                        has_delegation,
                        w,
                        now,
                        vote_yes,
                    ) is None
                    &&& *final(record) == new_rec
                    &&& *final(proposal) == tally_after(*old(proposal), *old(record), new_rec)
                    &&& *final(stats) == stats_credit(*old(stats), voter, now)
                },
            }
        }),
{
    if !global.system_enabled {
        return Err(ErrorCode::CircuitBreakerTripped);
    }
    if !proposal.is_active {
        return Err(ErrorCode::ProposalNotActive);
    }
    if now > proposal.deadline {
        return Err(ErrorCode::ProposalExpired);
    }
    if has_delegation {
        return Err(ErrorCode::DelegatorsCannotVote);
    }

    let (staked_amount, multiplier) = match stake_record {
        Some(s) => (s.staked_amount, s.multiplier),
        None => (0, 1),
    };
    let total_voting_power = compute_voting_power(liquid_balance, staked_amount, multiplier);
    if total_voting_power == 0 {
        return Err(ErrorCode::NoVotingPower);
    }

    if record.voted {
        if record.voted_by_proxy {
            return Err(ErrorCode::ProxyVoteLocked);
        }
        if record.vote == vote_yes {
            return Err(ErrorCode::AlreadyVoted);
        }
        // Move the old snapshot out of its tally, the new power into the other.
        if record.vote {
            proposal.yes = proposal.yes - record.voting_power;
        } else {
            proposal.no = proposal.no - record.voting_power;
        }
        if vote_yes {
            proposal.yes = proposal.yes + total_voting_power;
        } else {
            proposal.no = proposal.no + total_voting_power;
        }
        record.vote = vote_yes;
        record.voting_power = total_voting_power;
        record.staked_amount = staked_amount;
        record.voted_by_proxy = false;
    } else {
        if vote_yes {
            proposal.yes = proposal.yes + total_voting_power;
        } else {
            proposal.no = proposal.no + total_voting_power;
        }
        record.proposal = proposal.number;
        record.voter = voter;
        record.vote = vote_yes;
        record.voted = true;
        record.voting_power = total_voting_power;
        record.staked_amount = staked_amount;
    }

    if stats.proposal_count == 0 {
        stats.user = voter;
        stats.score = 0;
    }
    stats.proposal_count = stats.proposal_count + 1;
    stats.last_vote_time = now;
    stats.score = stats.score + VOTE_SCORE;

    Ok(())
}

/// Validation phase of `withdraw_vote`.
pub open spec fn withdraw_check(
    global: GlobalAccount,
    p: ProposalAccount,
    rec: VoterRecord,
    now: i64,
) -> Option<ErrorCode> {
    if !global.system_enabled {
        Some(ErrorCode::CircuitBreakerTripped)
    } else if !p.is_active {
        Some(ErrorCode::ProposalNotActive)
    } else if now > p.deadline {
        Some(ErrorCode::ProposalExpired)
    } else if !rec.voted {
        Some(ErrorCode::Unauthorized)
    } else if rec.voted_by_proxy {
        Some(ErrorCode::ProxyVoteLocked)
    } else {
        None
    }
}

/// A record after withdrawal: it stops counting and its snapshot is zeroed,
/// but it is kept, so the voter can vote again without re-registration.
pub open spec fn withdrawn_record(rec: VoterRecord) -> VoterRecord {
    VoterRecord { voted: false, voting_power: 0, ..rec }
}

/// Withdraws a standing direct vote before the deadline: the snapshot leaves
/// its tally and the record stops counting. A proxy-cast record cannot be
/// withdrawn by its holder.
pub fn withdraw_vote(
    global: &GlobalAccount,
    proposal: &mut ProposalAccount,
    record: &mut VoterRecord,
    now: i64,
) -> (r: Result<(), ErrorCode>)
    requires
        withdraw_check(*global, *old(proposal), *old(record), now) is None ==> tally_fits(
            *old(proposal),
            *old(record),
            withdrawn_record(*old(record)),
        ),
    ensures
        match r {
            Err(e) => {
                &&& Some(e) == withdraw_check(*global, *old(proposal), *old(record), now)
                &&& *final(proposal) == *old(proposal)
                &&& *final(record) == *old(record)
            },
            Ok(()) => {
                &&& withdraw_check(*global, *old(proposal), *old(record), now) is None
                &&& *final(record) == withdrawn_record(*old(record))
                &&& *final(proposal) == tally_after(
                    *old(proposal),
                    *old(record),
                    *final(record),
                )
            },
        },
{
    if !global.system_enabled {
        return Err(ErrorCode::CircuitBreakerTripped);
    }
    if !proposal.is_active {
        return Err(ErrorCode::ProposalNotActive);
    }
    if now > proposal.deadline {
        return Err(ErrorCode::ProposalExpired);
    }
    if !record.voted {
        return Err(ErrorCode::Unauthorized);
    }
    if record.voted_by_proxy {
        return Err(ErrorCode::ProxyVoteLocked);
    }
    if record.vote {
        proposal.yes = proposal.yes - record.voting_power;
    } else {
        proposal.no = proposal.no - record.voting_power;
    }
    record.voted = false;
    record.voting_power = 0;
    Ok(())
}

/// Authorisation shared by the two proxy operations: the profile must be an
/// active delegate whose authority is the caller, and the delegation record
/// must prove `delegator -> caller`.
pub open spec fn proxy_auth_check(
    global: GlobalAccount,
    profile: DelegateProfile,
    delegation: DelegationRecord,
    proxy_authority: u64,
    delegator: u64,
) -> Option<ErrorCode> {
    if !global.system_enabled {
        Some(ErrorCode::CircuitBreakerTripped)
    } else if !profile.is_active {
        Some(ErrorCode::InvalidDelegate)
    } else if profile.authority != proxy_authority {
        Some(ErrorCode::Unauthorized)
    } else if delegation.delegator != delegator {
        Some(ErrorCode::Unauthorized)
    } else if delegation.delegate_target != proxy_authority {
        Some(ErrorCode::Unauthorized)
    } else {
        None
    }
}

/// Validation phase of `vote_as_proxy`.
pub open spec fn proxy_vote_check(
    global: GlobalAccount,
    p: ProposalAccount,
    rec: VoterRecord,
    profile: DelegateProfile,
    delegation: DelegationRecord,
    proxy_authority: u64,
    delegator: u64,
    power: int,
    now: i64,
    vote_yes: bool,
) -> Option<ErrorCode> {
    if proxy_auth_check(global, profile, delegation, proxy_authority, delegator) is Some {
        proxy_auth_check(global, profile, delegation, proxy_authority, delegator)
    } else if !p.is_active {
        Some(ErrorCode::ProposalNotActive)
    } else if now > p.deadline {
        Some(ErrorCode::ProposalExpired)
    } else if power <= 0 {
        Some(ErrorCode::NoVotingPower)
    } else if rec.voted && rec.vote == vote_yes {
        Some(ErrorCode::AlreadyVoted)
    } else {
        None
    }
}

/// The record after a successful proxy vote: claimed for the delegator in
/// full and marked proxy-cast.
pub open spec fn proxy_applied_record(
    proposal_number: u64,
    delegator: u64,
    power: u64,
    staked: u64,
    vote_yes: bool,
) -> VoterRecord {
    VoterRecord {
        proposal: proposal_number,
        voter: delegator,
        vote: vote_yes,
        voted: true,
        voting_power: power,
        staked_amount: staked,
        voted_by_proxy: true,
    }
}

/// Casts or switches a vote on the delegator's behalf.
///
/// Power is computed from the delegator's holdings, the record is the
/// delegator's (the proxy never owns a record here), and the resulting record
/// is marked proxy-cast, locking it against the delegator until the proxy
/// withdraws it. The participation stats credited are the proxy's: the actor
/// doing the work is rewarded. A same-option re-vote is rejected exactly as
/// in direct voting.
pub fn vote_as_proxy(
    global: &GlobalAccount,
    proposal: &mut ProposalAccount,
    record: &mut VoterRecord,
    proxy_stats: &mut UserStats,
    profile: &DelegateProfile,
    delegation: &DelegationRecord,
    proxy_authority: u64,
    delegator: u64,
    delegator_liquid_balance: u64,
    delegator_stake_record: Option<&VoterStakeRecord>,
    now: i64,
    vote_yes: bool,
) -> (r: Result<(), ErrorCode>)
    requires
        delegator_stake_record matches Some(s) ==> s.wf(),
        ({
            let w = member_power(delegator_liquid_balance, delegator_stake_record);
            proxy_vote_check(
                *global,
                *old(proposal),
                *old(record),
                *profile,
                *delegation,
                proxy_authority,
                delegator,
                w,
                now,
                vote_yes,
            ) is None ==> {
                &&& tally_fits(
                    *old(proposal),
                    *old(record),
                    proxy_applied_record(
                        old(proposal).number,
                        delegator,
                        w as u64,
                        stake_amount_of(delegator_stake_record),
                        vote_yes,
                    ),
                )
                &&& stats_credit_fits(*old(proxy_stats))
            }
        }),
    ensures
        ({
            let w = member_power(delegator_liquid_balance, delegator_stake_record);
            let new_rec = proxy_applied_record(
                old(proposal).number,
                delegator,
                w as u64,
                stake_amount_of(delegator_stake_record),
                vote_yes,
            );
            match r {
                Err(e) => {
                    &&& Some(e) == proxy_vote_check(
                        *global,
                        *old(proposal),
                        *old(record),
                        *profile,
                        *delegation,
                        proxy_authority,
                        delegator,
                        w,
                        now,
                        vote_yes,
                    )
                    &&& *final(proposal) == *old(proposal)
                    &&& *final(record) == *old(record)
                    &&& *final(proxy_stats) == *old(proxy_stats)
                },
                Ok(()) => {
                    &&& proxy_vote_check(
                        *global,
                        *old(proposal),
                        *old(record),
                        *profile,
                        *delegation,
                        proxy_authority,
                        delegator,
                        w,
                        now,
                        vote_yes,
                    ) is None
                    &&& *final(record) == new_rec
                    &&& *final(proposal) == tally_after(*old(proposal), *old(record), new_rec)
                    &&& *final(proxy_stats) == stats_credit(*old(proxy_stats), proxy_authority, now)
                },
            }
        }),
{
    if !global.system_enabled {
        return Err(ErrorCode::CircuitBreakerTripped);
    }
    if !profile.is_active {
        return Err(ErrorCode::InvalidDelegate);
    }
    if profile.authority != proxy_authority {
        return Err(ErrorCode::Unauthorized);
    }
    if delegation.delegator != delegator {
        return Err(ErrorCode::Unauthorized);
    }
    if delegation.delegate_target != proxy_authority {
        return Err(ErrorCode::Unauthorized);
    }
    if !proposal.is_active {
        return Err(ErrorCode::ProposalNotActive);
    }
    if now > proposal.deadline {
        return Err(ErrorCode::ProposalExpired);
    }

    let (staked_amount, multiplier) = match delegator_stake_record {
        Some(s) => (s.staked_amount, s.multiplier),
        None => (0, 1),
    };
    let total_voting_power = compute_voting_power(
        delegator_liquid_balance,
        staked_amount,
        multiplier,
    );
    if total_voting_power == 0 {
        return Err(ErrorCode::NoVotingPower);
    }

    if record.voted {
        if record.vote == vote_yes {
            return Err(ErrorCode::AlreadyVoted);
        }
        if record.vote {
            proposal.yes = proposal.yes - record.voting_power;
        } else {
            proposal.no = proposal.no - record.voting_power;
        }
    }
    if vote_yes {
        proposal.yes = proposal.yes + total_voting_power;
    } else {
        proposal.no = proposal.no + total_voting_power;
    }

    record.proposal = proposal.number;
    record.voter = delegator;
    record.vote = vote_yes;
    record.voted = true;
    record.voting_power = total_voting_power;
    record.staked_amount = staked_amount;
    record.voted_by_proxy = true;

    if proxy_stats.proposal_count == 0 {
        proxy_stats.user = proxy_authority;
        proxy_stats.score = 0;
    }
    proxy_stats.proposal_count = proxy_stats.proposal_count + 1;
    proxy_stats.last_vote_time = now;
    proxy_stats.score = proxy_stats.score + VOTE_SCORE;

    Ok(())
}

/// Validation phase of `withdraw_as_proxy`.
pub open spec fn proxy_withdraw_check(
    global: GlobalAccount,
    p: ProposalAccount,
    profile: DelegateProfile,
    delegation: DelegationRecord,
    proxy_authority: u64,
    delegator: u64,
    now: i64,
) -> Option<ErrorCode> {
    if proxy_auth_check(global, profile, delegation, proxy_authority, delegator) is Some {
        proxy_auth_check(global, profile, delegation, proxy_authority, delegator)
    } else if !p.is_active {
        Some(ErrorCode::ProposalNotActive)
    } else if now > p.deadline {
        Some(ErrorCode::ProposalExpired)
    } else {
        None
    }
}

/// A record after a proxy withdrawal: it stops counting and the proxy mark is
/// cleared, so the delegator can vote directly again.
pub open spec fn proxy_withdrawn_record(rec: VoterRecord) -> VoterRecord {
    VoterRecord { voted: false, voting_power: 0, voted_by_proxy: false, ..rec }
}

/// Withdraws the delegator's record on its behalf, under the same
/// authorisation as `vote_as_proxy`. A record not currently voting is left
/// alone and the call still succeeds. Clearing the proxy mark unlocks the
/// record for the delegator's own use.
pub fn withdraw_as_proxy(
    global: &GlobalAccount,
    proposal: &mut ProposalAccount,
    record: &mut VoterRecord,
    profile: &DelegateProfile,
    delegation: &DelegationRecord,
    proxy_authority: u64,
    delegator: u64,
    now: i64,
) -> (r: Result<(), ErrorCode>)
    requires
        proxy_withdraw_check(
            *global,
            *old(proposal),
            *profile,
            *delegation,
            proxy_authority,
            delegator,
            now,
        ) is None ==> tally_fits(
            *old(proposal),
            *old(record),
            proxy_withdrawn_record(*old(record)),
        ),
    ensures
        match r {
            Err(e) => {
                &&& Some(e) == proxy_withdraw_check(
                    *global,
                    *old(proposal),
                    *profile,
                    *delegation,
                    proxy_authority,
                    delegator,
                    now,
                )
                &&& *final(proposal) == *old(proposal)
                &&& *final(record) == *old(record)
            },
            Ok(()) => {
                &&& proxy_withdraw_check(
                    *global,
                    *old(proposal),
                    *profile,
                    *delegation,
                    proxy_authority,
                    delegator,
                    now,
                ) is None
                &&& *final(record) == (if old(record).voted {
                    proxy_withdrawn_record(*old(record))
                } else {
                    *old(record)
                })
                &&& *final(proposal) == tally_after(*old(proposal), *old(record), *final(record))
            },
        },
{
    if !global.system_enabled {
        return Err(ErrorCode::CircuitBreakerTripped);
    }
    if !profile.is_active {
        return Err(ErrorCode::InvalidDelegate);
    }
    if profile.authority != proxy_authority {
        return Err(ErrorCode::Unauthorized);
    }
    if delegation.delegator != delegator {
        return Err(ErrorCode::Unauthorized);
    }
    if delegation.delegate_target != proxy_authority {
        return Err(ErrorCode::Unauthorized);
    }
    if !proposal.is_active {
        return Err(ErrorCode::ProposalNotActive);
    }
    if now > proposal.deadline {
        return Err(ErrorCode::ProposalExpired);
    }
    if record.voted {
        if record.vote {
            proposal.yes = proposal.yes - record.voting_power;
        } else {
            proposal.no = proposal.no - record.voting_power;
        }
        record.voted = false;
        record.voting_power = 0;
        record.voted_by_proxy = false;
    }
    Ok(())
}

/// Law (delegating forfeits direct voting): a user with an active outgoing
/// delegation can never vote directly — whatever the proposal, the record,
/// the holdings or the option, the vote fails; and once the breaker, activity
/// and deadline gates pass, it fails precisely with `DelegatorsCannotVote`.
pub proof fn lemma_delegators_cannot_vote(
    global: GlobalAccount,
    p: ProposalAccount,
    rec: VoterRecord,
    power: int,
    now: i64,
    vote_yes: bool,
)
    ensures
        vote_check(global, p, rec, true, power, now, vote_yes) is Some,
        global.system_enabled && p.is_active && now <= p.deadline ==> vote_check(
            global,
            p,
            rec,
            true,
            power,
            now,
            vote_yes,
        ) == Some(ErrorCode::DelegatorsCannotVote),
{
}

/// Law (vote switch round trip): switching a standing vote to the opposite
/// option and then straight back, with the holdings unchanged in between —
/// so the power computed at both switches is the snapshot the record already
/// carries — returns both tallies to their pre-switch values.
pub proof fn lemma_switch_vote_round_trip(
    p: ProposalAccount,
    rec: VoterRecord,
    voter: u64,
    power: u64,
    staked: u64,
)
    requires
        rec.voted,
        rec.voting_power == power,
        rec.vote ==> power <= p.yes && p.no + power <= u64::MAX,
        !rec.vote ==> power <= p.no && p.yes + power <= u64::MAX,
    ensures
        ({
            let r1 = vote_applied_record(rec, p.number, voter, power, staked, !rec.vote);
            let p1 = tally_after(p, rec, r1);
            let r2 = vote_applied_record(r1, p.number, voter, power, staked, rec.vote);
            let p2 = tally_after(p1, r1, r2);
            &&& p2.yes == p.yes
            &&& p2.no == p.no
        }),
{
}

} // verus!
