//! Vote accounting law: a proposal's tallies equal the sums over its records.
//!
//! The store holds one `VoterRecord` per (proposal, voter) pair; `records`
//! below stands for all records of one proposal, in any fixed order. Every
//! successful vote-ledger operation replaces one record `old_r` by `new_r`
//! (or stores a first record) and moves the tallies to
//! `tally_after(p, old_r, new_r)` — that is what the `ensures` of `vote`,
//! `withdraw_vote`, `vote_as_proxy` and `withdraw_as_proxy` state. The lemmas
//! here close the loop: such a step keeps `yes` equal to the summed power of
//! the standing yes-records, and `no` likewise, at every point in time.

use vstd::prelude::*;

use crate::state::ProposalAccount;
use crate::state::VoterRecord;
use crate::state::no_contribution;
use crate::state::tally_after;
use crate::state::tally_fits;
use crate::state::yes_contribution;

verus! {

/// Summed voting power of the standing yes-records.
pub open spec fn yes_total(records: Seq<VoterRecord>) -> int
    decreases records.len(),
{
    if records.len() == 0 {
        0
    } else {
        yes_total(records.drop_last()) + yes_contribution(records.last())
    }
}

/// Summed voting power of the standing no-records.
pub open spec fn no_total(records: Seq<VoterRecord>) -> int
    decreases records.len(),
{
    if records.len() == 0 {
        0
    } else {
        no_total(records.drop_last()) + no_contribution(records.last())
    }
}

/// The proposal's tallies are exactly the sums over its records: `yes` is the
/// summed `voting_power` of the records currently `voted` with `vote` true,
/// and `no` the same over those with `vote` false.
pub open spec fn tallies_consistent(p: ProposalAccount, records: Seq<VoterRecord>) -> bool {
    &&& p.yes == yes_total(records)
    &&& p.no == no_total(records)
}

/// Replacing one record changes each sum by exactly the difference of that
/// record's contributions.
proof fn lemma_total_update(records: Seq<VoterRecord>, i: int, r: VoterRecord)
    requires
        0 <= i < records.len(),
    ensures
        yes_total(records.update(i, r)) == yes_total(records) - yes_contribution(records[i])
            + yes_contribution(r),
        no_total(records.update(i, r)) == no_total(records) - no_contribution(records[i])
            + no_contribution(r),
    decreases records.len(),
{
    let updated = records.update(i, r);
    if i == records.len() - 1 {
        assert(updated.drop_last() =~= records.drop_last());
    } else {
        lemma_total_update(records.drop_last(), i, r);
        assert(updated.drop_last() =~= records.drop_last().update(i, r));
        assert(updated.last() == records.last());
    }
}

/// Law (vote accounting, fresh proposal): a proposal created with zero
/// tallies is consistent with its (empty) record set.
pub proof fn lemma_fresh_proposal_consistent(p: ProposalAccount)
    requires
        p.yes == 0,
        p.no == 0,
    ensures
        tallies_consistent(p, Seq::empty()),
{
}

/// Law (vote accounting, existing record): an operation that replaces record
/// `i` by `new_r` and moves the tallies to `tally_after` — a switched vote, a
/// withdrawal, a proxy cast over a standing record, a re-entered vote on a
/// withdrawn record — preserves consistency.
pub proof fn lemma_tally_update_preserves_consistency(
    p: ProposalAccount,
    records: Seq<VoterRecord>,
    i: int,
    new_r: VoterRecord,
)
    requires
        tallies_consistent(p, records),
        0 <= i < records.len(),
        tally_fits(p, records[i], new_r),
    ensures
        tallies_consistent(tally_after(p, records[i], new_r), records.update(i, new_r)),
{
    lemma_total_update(records, i, new_r);
}

/// Law (vote accounting, first record): a first vote hands the ledger a fresh
/// record `old_r` that is not in the set and not yet voting, stores `new_r`,
/// and moves the tallies to `tally_after` — which preserves consistency for
/// the grown set.
pub proof fn lemma_tally_push_preserves_consistency(
    p: ProposalAccount,
    records: Seq<VoterRecord>,
    old_r: VoterRecord,
    new_r: VoterRecord,
)
    requires
        tallies_consistent(p, records),
        !old_r.voted,
        tally_fits(p, old_r, new_r),
    ensures
        tallies_consistent(tally_after(p, old_r, new_r), records.push(new_r)),
{
    assert(records.push(new_r).drop_last() =~= records);
}

} // verus!
