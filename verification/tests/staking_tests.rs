use pulsar_dao::error::ErrorCode;
use pulsar_dao::staking::deposit_tokens;
use pulsar_dao::staking::initialize_stake;
use pulsar_dao::staking::unstake_tokens;
use pulsar_dao::state::VoterStakeRecord;

const OWNER: u64 = 5;

#[test]
fn initialize_stake_opens_empty_position() {
    let s = initialize_stake(OWNER);
    assert_eq!(
        s,
        VoterStakeRecord {
            owner: OWNER,
            staked_amount: 0,
            lock_end_time: 0,
            original_lock_days: 0,
            multiplier: 1,
        }
    );
}

#[test]
fn deposit_maps_each_duration_to_its_multiplier() {
    for (duration, multiplier) in [(30i64, 2u64), (90, 3), (180, 4), (360, 5)] {
        let mut s = initialize_stake(OWNER);
        deposit_tokens(&mut s, 100, duration, 1000).unwrap();
        assert_eq!(s.staked_amount, 100);
        assert_eq!(s.lock_end_time, 1000 + duration);
        assert_eq!(s.original_lock_days, duration);
        assert_eq!(s.multiplier, multiplier);
    }
}

#[test]
fn deposit_rejects_every_other_duration_unchanged() {
    for duration in [0i64, 1, 29, 31, 60, 89, 91, 179, 181, 359, 361, 3650, -30, i64::MIN] {
        let mut s = initialize_stake(OWNER);
        deposit_tokens(&mut s, 500, 90, 50).unwrap();
        let before = s;
        let r = deposit_tokens(&mut s, 100, duration, 60);
        assert_eq!(r, Err(ErrorCode::InvalidLockDuration));
        assert_eq!(s, before);
    }
}

#[test]
fn redeposit_accumulates_and_overwrites_the_lock() {
    let mut s = initialize_stake(OWNER);
    deposit_tokens(&mut s, 100, 360, 1000).unwrap();
    assert_eq!(s.multiplier, 5);
    // A later, shorter lock overwrites the window and the multiplier.
    deposit_tokens(&mut s, 50, 30, 2000).unwrap();
    assert_eq!(s.staked_amount, 150);
    assert_eq!(s.lock_end_time, 2030);
    assert_eq!(s.original_lock_days, 30);
    assert_eq!(s.multiplier, 2);
}

#[test]
fn unstake_before_lock_end_is_rejected() {
    let mut s = initialize_stake(OWNER);
    deposit_tokens(&mut s, 100, 30, 1000).unwrap();
    let r = unstake_tokens(&mut s, 1029);
    assert_eq!(r, Err(ErrorCode::TokensLocked));
    assert_eq!(s.staked_amount, 100);
}

#[test]
fn unstake_without_stake_is_rejected() {
    let mut s = initialize_stake(OWNER);
    let r = unstake_tokens(&mut s, 1000);
    assert_eq!(r, Err(ErrorCode::NoTokensToUnstake));
}

#[test]
fn unstake_returns_everything_and_resets() {
    let mut s = initialize_stake(OWNER);
    deposit_tokens(&mut s, 100, 30, 1000).unwrap();
    let r = unstake_tokens(&mut s, 1030);
    assert_eq!(r, Ok(100));
    assert_eq!(s.staked_amount, 0);
    assert_eq!(s.multiplier, 1);
    assert_eq!(s.lock_end_time, 0);
    assert_eq!(s.owner, OWNER);
}
