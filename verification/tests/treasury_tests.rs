use pulsar_dao::admin::initialize;
use pulsar_dao::error::ErrorCode;
use pulsar_dao::proposal::create_proposal;
use pulsar_dao::proposal::create_treasury_proposal;
use pulsar_dao::state::GlobalAccount;
use pulsar_dao::state::ProposalAccount;
use pulsar_dao::state::TreasuryEscrow;
use pulsar_dao::state::UserStats;
use pulsar_dao::state::VoterRecord;
use pulsar_dao::treasury::execute_proposal;
use pulsar_dao::treasury::reclaim_proposal_funds;
use pulsar_dao::voting::vote;

const ADMIN: u64 = 1;
const MINT: u64 = 2;
const AUTHOR: u64 = 7;
const VOTER: u64 = 11;
const DESTINATION: u64 = 42;
const DEADLINE: i64 = 1000;
const TIMELOCK: i64 = 3600;

fn setup_treasury(amount: u64) -> (GlobalAccount, ProposalAccount, TreasuryEscrow) {
    let mut g = initialize(ADMIN, MINT);
    let (p, e) = create_treasury_proposal(
        &mut g,
        AUTHOR,
        "t".to_string(),
        "d".to_string(),
        DEADLINE,
        amount,
        DESTINATION,
        TIMELOCK,
    )
    .unwrap();
    (g, p, e)
}

fn cast(g: &GlobalAccount, p: &mut ProposalAccount, voter: u64, liquid: u64, yes: bool) {
    let mut rec = VoterRecord {
        proposal: 0,
        voter: 0,
        vote: false,
        voted: false,
        voting_power: 0,
        staked_amount: 0,
        voted_by_proxy: false,
    };
    let mut stats = UserStats { user: 0, proposal_count: 0, last_vote_time: 0, score: 0, badge_claimed: false };
    vote(g, p, &mut rec, &mut stats, voter, liquid, None, false, 500, yes).unwrap();
}

#[test]
fn passed_proposal_executes_once_after_the_timelock() {
    // Deadline T, timelock 3600; a voter with liquid balance 100 casts yes.
    let (g, mut p, mut e) = setup_treasury(500);
    cast(&g, &mut p, VOTER, 100, true);
    assert_eq!(p.yes, 10);
    assert_eq!(p.no, 0);

    // At T+1 the timelock still runs.
    let early = execute_proposal(&mut p, &mut e, DESTINATION, DEADLINE + 1);
    assert_eq!(early, Err(ErrorCode::TimelockNotPassed));
    assert_eq!(e.held, 500);
    assert!(!p.executed);

    // At T+3601 the escrow drains, exactly once.
    let r = execute_proposal(&mut p, &mut e, DESTINATION, DEADLINE + TIMELOCK + 1);
    assert_eq!(r, Ok(500));
    assert_eq!(e.held, 0);
    assert!(p.executed);
    assert!(!p.is_active);

    let again = execute_proposal(&mut p, &mut e, DESTINATION, DEADLINE + TIMELOCK + 2);
    assert_eq!(again, Err(ErrorCode::AlreadyExecuted));
    assert_eq!(e.held, 0);
}

#[test]
fn execute_and_reclaim_are_mutually_exclusive() {
    // Once execute succeeds, reclaim (and any repeat) fails with
    // AlreadyExecuted — and the other way round.
    let (g, mut p, mut e) = setup_treasury(500);
    cast(&g, &mut p, VOTER, 100, true);
    execute_proposal(&mut p, &mut e, DESTINATION, DEADLINE + TIMELOCK).unwrap();
    assert_eq!(
        reclaim_proposal_funds(&mut p, &mut e, AUTHOR, DEADLINE + TIMELOCK + 1),
        Err(ErrorCode::AlreadyExecuted)
    );
    assert_eq!(
        execute_proposal(&mut p, &mut e, DESTINATION, DEADLINE + TIMELOCK + 1),
        Err(ErrorCode::AlreadyExecuted)
    );
    assert_eq!(e.held, 0);

    let (g2, mut p2, mut e2) = setup_treasury(300);
    cast(&g2, &mut p2, VOTER, 100, false);
    assert_eq!(reclaim_proposal_funds(&mut p2, &mut e2, AUTHOR, DEADLINE + 1), Ok(300));
    assert_eq!(e2.held, 0);
    assert_eq!(
        execute_proposal(&mut p2, &mut e2, DESTINATION, DEADLINE + TIMELOCK + 1),
        Err(ErrorCode::AlreadyExecuted)
    );
    assert_eq!(
        reclaim_proposal_funds(&mut p2, &mut e2, AUTHOR, DEADLINE + 2),
        Err(ErrorCode::AlreadyExecuted)
    );
}

#[test]
fn execute_needs_yes_strictly_ahead() {
    let (g, mut p, mut e) = setup_treasury(500);
    cast(&g, &mut p, VOTER, 100, false);
    let r = execute_proposal(&mut p, &mut e, DESTINATION, DEADLINE + TIMELOCK + 1);
    assert_eq!(r, Err(ErrorCode::ProposalNotPassed));

    // A tie fails execution too.
    let (g2, mut p2, mut e2) = setup_treasury(500);
    let _ = g2;
    let r2 = execute_proposal(&mut p2, &mut e2, DESTINATION, DEADLINE + TIMELOCK + 1);
    assert_eq!(r2, Err(ErrorCode::ProposalNotPassed));
}

#[test]
fn execute_before_deadline_is_rejected() {
    let (g, mut p, mut e) = setup_treasury(500);
    cast(&g, &mut p, VOTER, 100, true);
    let r = execute_proposal(&mut p, &mut e, DESTINATION, DEADLINE);
    assert_eq!(r, Err(ErrorCode::ProposalNotEnded));
}

#[test]
fn execute_validates_the_destination_owner() {
    let (g, mut p, mut e) = setup_treasury(500);
    cast(&g, &mut p, VOTER, 100, true);
    let r = execute_proposal(&mut p, &mut e, 99, DEADLINE + TIMELOCK + 1);
    assert_eq!(r, Err(ErrorCode::Unauthorized));
    assert_eq!(e.held, 500);
}

#[test]
fn execute_rejects_standard_proposals() {
    let mut g = initialize(ADMIN, MINT);
    let mut p = create_proposal(&mut g, AUTHOR, "t".to_string(), "d".to_string(), DEADLINE).unwrap();
    let mut e = TreasuryEscrow { proposal: p.number, held: 0 };
    let r = execute_proposal(&mut p, &mut e, DESTINATION, DEADLINE + 1);
    assert_eq!(r, Err(ErrorCode::NotTreasuryProposal));
    let r2 = reclaim_proposal_funds(&mut p, &mut e, AUTHOR, DEADLINE + 1);
    assert_eq!(r2, Err(ErrorCode::NotTreasuryProposal));
}

#[test]
fn reclaim_is_author_only() {
    let (g, mut p, mut e) = setup_treasury(500);
    cast(&g, &mut p, VOTER, 100, false);
    let r = reclaim_proposal_funds(&mut p, &mut e, VOTER, DEADLINE + 1);
    assert_eq!(r, Err(ErrorCode::Unauthorized));
    assert_eq!(e.held, 500);
}

#[test]
fn reclaim_fails_while_the_vote_stands_passed() {
    let (g, mut p, mut e) = setup_treasury(500);
    cast(&g, &mut p, VOTER, 100, true);
    let r = reclaim_proposal_funds(&mut p, &mut e, AUTHOR, DEADLINE + 1);
    assert_eq!(r, Err(ErrorCode::ProposalPassed));
}

#[test]
fn reclaim_before_deadline_is_rejected() {
    let (g, mut p, mut e) = setup_treasury(500);
    let _ = g;
    let r = reclaim_proposal_funds(&mut p, &mut e, AUTHOR, DEADLINE);
    assert_eq!(r, Err(ErrorCode::ProposalNotEnded));
}

#[test]
fn reclaim_needs_no_timelock() {
    // Reclaim waits only for the deadline, not for the execution timelock.
    let (g, mut p, mut e) = setup_treasury(500);
    let _ = g;
    let r = reclaim_proposal_funds(&mut p, &mut e, AUTHOR, DEADLINE + 1);
    assert_eq!(r, Ok(500));
    assert!(p.executed);
    assert!(!p.is_active);
}
