use pulsar_dao::admin::initialize;
use pulsar_dao::delegation::delegate_vote;
use pulsar_dao::delegation::register_delegate;
use pulsar_dao::delegation::remove_delegate;
use pulsar_dao::delegation::revoke_delegation;
use pulsar_dao::error::ErrorCode;
use pulsar_dao::state::DelegateProfile;
use pulsar_dao::state::DelegationRecord;

const ADMIN: u64 = 1;
const MINT: u64 = 2;
const DELEGATE: u64 = 20;
const USER: u64 = 30;

#[test]
fn register_delegate_creates_active_profile() {
    let g = initialize(ADMIN, MINT);
    let p = register_delegate(&g, ADMIN, DELEGATE, false).unwrap();
    assert_eq!(p, DelegateProfile { authority: DELEGATE, is_active: true });
}

#[test]
fn register_delegate_is_admin_only() {
    let g = initialize(ADMIN, MINT);
    let r = register_delegate(&g, USER, DELEGATE, false);
    assert_eq!(r, Err(ErrorCode::Unauthorized));
}

#[test]
fn delegator_cannot_become_delegate() {
    let g = initialize(ADMIN, MINT);
    let r = register_delegate(&g, ADMIN, USER, true);
    assert_eq!(r, Err(ErrorCode::DelegatorCannotBeDelegate));
}

#[test]
fn delegate_vote_creates_record() {
    let d = delegate_vote(USER, DELEGATE, false).unwrap();
    assert_eq!(d, DelegationRecord { delegator: USER, delegate_target: DELEGATE });
}

#[test]
fn registered_delegate_cannot_delegate() {
    let r = delegate_vote(DELEGATE, USER, true);
    assert_eq!(r, Err(ErrorCode::DelegateCannotDelegate));
}

#[test]
fn self_delegation_is_a_loop() {
    let r = delegate_vote(USER, USER, false);
    assert_eq!(r, Err(ErrorCode::DelegationLoop));
}

#[test]
fn revoke_delegation_needs_the_delegator() {
    let d = DelegationRecord { delegator: USER, delegate_target: DELEGATE };
    assert_eq!(revoke_delegation(&d, DELEGATE), Err(ErrorCode::Unauthorized));
    assert_eq!(revoke_delegation(&d, USER), Ok(()));
}

#[test]
fn remove_delegate_is_admin_only() {
    let g = initialize(ADMIN, MINT);
    assert_eq!(remove_delegate(&g, USER), Err(ErrorCode::Unauthorized));
    assert_eq!(remove_delegate(&g, ADMIN), Ok(()));
}
