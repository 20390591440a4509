//! One-level delegation graph.
//!
//! A member is a plain holder, a delegator (one outgoing edge, no incoming),
//! or a registered delegate (receives votes, no outgoing edge). Depth stays at
//! 1 by construction: each creation point checks only its immediate
//! neighbour, so no traversal is ever needed. The store keys a
//! `DelegationRecord` by its delegator and a `DelegateProfile` by its
//! delegate, which is what makes "at most one outgoing edge" hold; the two
//! existence flags passed in below are those lookups' answers.

use vstd::prelude::*;

use crate::error::ErrorCode;
use crate::state::DelegateProfile;
use crate::state::DelegationRecord;
use crate::state::GlobalAccount;

verus! {

/// Registers `target` as a delegate. Admin-only; refused while `target` has
/// an outgoing delegation of its own (`target_has_delegation`), so a
/// delegator can never become a delegate. On success the boundary stores the
/// returned profile under `target`; the store refuses a second profile for
/// the same key.
pub fn register_delegate(
    global: &GlobalAccount,
    caller: u64,
    target: u64,
    target_has_delegation: bool,
) -> (r: Result<DelegateProfile, ErrorCode>)
    ensures
        r is Ok <==> (caller == global.admin && !target_has_delegation),
        r is Err ==> r->Err_0 == (if caller != global.admin {
            ErrorCode::Unauthorized
        } else {
            ErrorCode::DelegatorCannotBeDelegate
        }),
        r matches Ok(p) ==> p == (DelegateProfile { authority: target, is_active: true }),
{
    if global.admin != caller {
        return Err(ErrorCode::Unauthorized);
    }
    if target_has_delegation {
        return Err(ErrorCode::DelegatorCannotBeDelegate);
    }
    Ok(DelegateProfile { authority: target, is_active: true })
}

/// Delegates `user`'s voting rights to `target_delegate`. Refused while the
/// user is itself a registered delegate (`user_is_registered_delegate`, the
/// profile lookup), so chains cannot form; self-delegation is a loop. The
/// target's own validity is checked lazily at vote time, not here. On success
/// the boundary stores the returned record under `user`, overwriting any
/// earlier delegation.
pub fn delegate_vote(user: u64, target_delegate: u64, user_is_registered_delegate: bool) -> (r:
    Result<DelegationRecord, ErrorCode>)
    ensures
        r is Ok <==> (!user_is_registered_delegate && user != target_delegate),
        r is Err ==> r->Err_0 == (if user_is_registered_delegate {
            ErrorCode::DelegateCannotDelegate
        } else {
            ErrorCode::DelegationLoop
        }),
        r matches Ok(d) ==> d == (DelegationRecord { delegator: user, delegate_target: target_delegate }),
{
    if user_is_registered_delegate {
        return Err(ErrorCode::DelegateCannotDelegate);
    }
    if user == target_delegate {
        return Err(ErrorCode::DelegationLoop);
    }
    Ok(DelegationRecord { delegator: user, delegate_target: target_delegate })
}

/// Closes the caller's outgoing delegation: on success the boundary deletes
/// `record` from the store. Only the record's own delegator may revoke it.
pub fn revoke_delegation(record: &DelegationRecord, caller: u64) -> (r: Result<(), ErrorCode>)
    ensures
        r is Ok <==> record.delegator == caller,
        r is Err ==> r->Err_0 == ErrorCode::Unauthorized,
{
    if record.delegator != caller {
        return Err(ErrorCode::Unauthorized);
    }
    Ok(())
}

/// Closes a delegate's profile: on success the boundary deletes the profile
/// from the store. Admin-only.
pub fn remove_delegate(global: &GlobalAccount, caller: u64) -> (r: Result<(), ErrorCode>)
    ensures
        r is Ok <==> caller == global.admin,
        r is Err ==> r->Err_0 == ErrorCode::Unauthorized,
{
    if global.admin != caller {
        return Err(ErrorCode::Unauthorized);
    }
    Ok(())
}

} // verus!
