use pulsar_dao::admin::scale_to_base_units;
use pulsar_dao::error::ErrorCode;
use pulsar_dao::gamification::claim_badge;
use pulsar_dao::gamification::request_tokens;
use pulsar_dao::state::FaucetRecord;
use pulsar_dao::state::UserStats;

#[test]
fn first_faucet_request_is_granted() {
    let mut f = FaucetRecord { last_request_time: 0 };
    assert_eq!(request_tokens(&mut f, 5000), Ok(()));
    assert_eq!(f.last_request_time, 5000);
}

#[test]
fn faucet_enforces_a_day_of_cooldown() {
    let mut f = FaucetRecord { last_request_time: 5000 };
    assert_eq!(request_tokens(&mut f, 5000 + 86399), Err(ErrorCode::FaucetCooldown));
    assert_eq!(f.last_request_time, 5000);
    assert_eq!(request_tokens(&mut f, 5000 + 86400), Ok(()));
    assert_eq!(f.last_request_time, 5000 + 86400);
}

#[test]
fn badge_needs_the_score_threshold() {
    let mut s = UserStats { user: 3, proposal_count: 4, last_vote_time: 9, score: 40, badge_claimed: false };
    assert_eq!(claim_badge(&mut s), Err(ErrorCode::InsufficientScore));
    assert!(!s.badge_claimed);
    s.score = 50;
    assert_eq!(claim_badge(&mut s), Ok(()));
    assert!(s.badge_claimed);
}

#[test]
fn badge_claims_at_most_once() {
    let mut s = UserStats { user: 3, proposal_count: 9, last_vote_time: 9, score: 90, badge_claimed: false };
    claim_badge(&mut s).unwrap();
    assert_eq!(claim_badge(&mut s), Err(ErrorCode::AlreadyClaimed));
    assert!(s.badge_claimed);
}

#[test]
fn scaling_multiplies_by_ten_per_decimal() {
    assert_eq!(scale_to_base_units(3000, 0), Some(3000));
    assert_eq!(scale_to_base_units(3000, 6), Some(3_000_000_000));
    assert_eq!(scale_to_base_units(0, 19), Some(0));
    assert_eq!(scale_to_base_units(1, 19), Some(10_000_000_000_000_000_000));
}

#[test]
fn scaling_reports_overflow() {
    assert_eq!(scale_to_base_units(2, 19), None);
    assert_eq!(scale_to_base_units(u64::MAX, 1), None);
}
