//! The two vault operations, as decisions over plain values.
//!
//! The host hands in the current time and the relevant account addresses;
//! each operation checks the vault's rules and returns either the exact
//! ledger work to perform or the error that refused the call. The host
//! performs the returned work atomically: on any error, nothing persists.

use vstd::prelude::*;
use crate::account::StashAccount;
use crate::address::Address;
use crate::authority::{derived_signer, pda_of, pda_seed_spec, vault_authority};
use crate::errors::VaultError;

verus! {

/// The unlock timestamp that a lock of `lock_seconds` taken out at `now`
/// gets, or the error that refuses it: a duration that is negative when
/// read as a signed quantity, or an unlock time past the timestamp range.
pub open spec fn unlock_time_spec(now: i64, lock_seconds: u64) -> Result<i64, VaultError> {
    if lock_seconds > i64::MAX {
        Err(VaultError::InvalidDuration)
    } else if now + lock_seconds > i64::MAX {
        Err(VaultError::TimeOverflow)
    } else {
        Ok((now + lock_seconds) as i64)
    }
}

/// Compute the absolute unlock time for a lock of `lock_seconds` whole
/// seconds taken out at time `now`.
pub fn get_unlock_time(now: i64, lock_seconds: u64) -> (r: Result<i64, VaultError>)
    ensures
        r == unlock_time_spec(now, lock_seconds),
{
    if lock_seconds > i64::MAX as u64 {
        return Err(VaultError::InvalidDuration);
    }
    let d = lock_seconds as i64;
    if now > i64::MAX - d {
        return Err(VaultError::TimeOverflow);
    }
    Ok(now + d)
}

/// Is a lock with the given unlock time still locked at time `now`?
pub fn is_locked(unlock_time: i64, now: i64) -> (r: bool)
    ensures
        r == (now < unlock_time),
{
    now < unlock_time
}

/// The one ledger action that initialization asks of the host: reassign the
/// custodial authority of the holding `account` to `new_authority`, the
/// program-derived signer. The depositor thereby loses direct control of
/// the holding until release.
#[derive(Clone, Copy, Debug)]
pub struct AuthorityAssignment {
    pub account: Address,
    pub new_authority: Address,
}

/// The ledger work that a permitted release asks of the host, to be
/// performed atomically as a unit: transfer the full balance from the
/// locked holding to the receiver, authorized by the derived signer; then
/// close the emptied holding and the lock record, returning their storage
/// rent to the depositor.
#[derive(Clone, Copy, Debug)]
pub struct RetrievePlan {
    pub transfer_from: Address,
    pub transfer_to: Address,
    pub transfer_amount: u64,
    /// The derived signer that authorizes the transfer and the closes.
    pub authority: Address,
    /// The bump seed that, together with the fixed tag, proves the signer.
    pub authority_bump: u8,
    /// Where the reclaimed storage rent goes: the depositor.
    pub close_to: Address,
}

/// Create a time-locked vault: given the depositor, the token holding to
/// lock, the lock duration in whole seconds, the current time and the
/// program's own address, build the lock record and the authority
/// reassignment that puts the holding under the derived signer's custody.
pub fn initialize(
    initializer: &Address,
    stash_token_account: &Address,
    lock_seconds: u64,
    now: i64,
    program_id: &Address,
) -> (r: Result<(StashAccount, AuthorityAssignment), VaultError>)
    ensures
        unlock_time_spec(now, lock_seconds) matches Err(e)
            ==> r == Err::<(StashAccount, AuthorityAssignment), VaultError>(e),
        unlock_time_spec(now, lock_seconds) is Ok && derived_signer(program_id@) is None
            ==> r == Err::<(StashAccount, AuthorityAssignment), VaultError>(VaultError::LedgerFailure),
        unlock_time_spec(now, lock_seconds) matches Ok(t)
            ==> derived_signer(program_id@) is Some
            ==> (r matches Ok(p)
                && p.0 == (StashAccount {
                    initializer_key: *initializer,
                    stash_token_account: *stash_token_account,
                    unlock_time: t,
                })
                && p.1.account == *stash_token_account
                && Some(p.1.new_authority@) == derived_signer(program_id@)),
{
    let unlock_time = match get_unlock_time(now, lock_seconds) {
        Ok(t) => t,
        Err(e) => {
            return Err(e);
        },
    };
    let (authority, _bump) = match vault_authority(program_id) {
        Some(p) => p,
        None => {
            return Err(VaultError::LedgerFailure);
        },
    };
    let record = StashAccount {
        initializer_key: *initializer,
        stash_token_account: *stash_token_account,
        unlock_time,
    };
    let assignment = AuthorityAssignment { account: *stash_token_account, new_authority: authority };
    Ok((record, assignment))
}

/// Do the caller, the lock record and the supplied holding belong
/// together: is the caller the depositor, and is the holding the one the
/// record describes?
pub open spec fn retrieve_constraints_ok(
    caller: Address,
    record: StashAccount,
    stash_token_account: Address,
) -> bool {
    record.initializer_key == caller && record.stash_token_account == stash_token_account
}

/// Release a vault: given the caller, the lock record, the locked holding
/// and its current balance, the receiver holding, the current time and the
/// program's own address, check ownership and expiry and return the exact
/// ledger work of the release.
pub fn retrieve(
    initializer: &Address,
    stash_account: &StashAccount,
    stash_token_account: &Address,
    stash_amount: u64,
    receiver_token_account: &Address,
    now: i64,
    program_id: &Address,
) -> (r: Result<RetrievePlan, VaultError>)
    ensures
        !retrieve_constraints_ok(*initializer, *stash_account, *stash_token_account)
            ==> r == Err::<RetrievePlan, VaultError>(VaultError::ConstraintViolation),
        retrieve_constraints_ok(*initializer, *stash_account, *stash_token_account)
            && now < stash_account.unlock_time
            ==> r == Err::<RetrievePlan, VaultError>(VaultError::StillLocked),
        retrieve_constraints_ok(*initializer, *stash_account, *stash_token_account)
            && now >= stash_account.unlock_time && derived_signer(program_id@) is None
            ==> r == Err::<RetrievePlan, VaultError>(VaultError::LedgerFailure),
        retrieve_constraints_ok(*initializer, *stash_account, *stash_token_account)
            && now >= stash_account.unlock_time && derived_signer(program_id@) is Some
            ==> (r matches Ok(plan)
                && plan.transfer_from == *stash_token_account
                && plan.transfer_to == *receiver_token_account
                && plan.transfer_amount == stash_amount
                && pda_of(pda_seed_spec(), program_id@)
                    == Some((plan.authority@, plan.authority_bump))
                && plan.close_to == *initializer),
{
    if !initializer.equals(&stash_account.initializer_key) {
        return Err(VaultError::ConstraintViolation);
    }
    if !stash_token_account.equals(&stash_account.stash_token_account) {
        return Err(VaultError::ConstraintViolation);
    }
    if is_locked(stash_account.unlock_time, now) {
        return Err(VaultError::StillLocked);
    }
    let (authority, authority_bump) = match vault_authority(program_id) {
        Some(p) => p,
        None => {
            return Err(VaultError::LedgerFailure);
        },
    };
    Ok(RetrievePlan {
        transfer_from: *stash_token_account,
        transfer_to: *receiver_token_account,
        transfer_amount: stash_amount,
        authority,
        authority_bump,
        close_to: *initializer,
    })
}

} // verus!
