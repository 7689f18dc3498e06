//! An executable model of one vault's whole life against the host: the
//! lock record slot, the locked holding, the receiver holding and the
//! derived signer, with the two calls as atomic transitions over it.
//!
//! Each transition is pinned to a spec-level step function, and the
//! library's laws are proved of those step functions.

use vstd::prelude::*;
use crate::account::StashAccount;
use crate::address::Address;
use crate::authority::derived_signer;
use crate::errors::{CallError, VaultError};
use crate::ops::{get_unlock_time, is_locked, unlock_time_spec};

verus! {

/// A balance of fungible tokens together with the identity that has
/// custodial authority over it.
#[derive(Clone, Copy, Debug)]
pub struct TokenHolding {
    pub authority: Address,
    pub amount: u64,
}

/// Everything one vault touches: the record slot, the holding under lock,
/// the receiver's balance, and the derived signer that the program proved
/// once for its own address. A missing record or holding is one that the
/// host's storage does not hold (not yet created, or already closed).
#[derive(Clone, Copy, Debug)]
pub struct World {
    /// The program-derived signer: the capability under which the vault
    /// holds custody.
    pub vault_authority: Address,
    /// The address of the token holding under lock.
    pub stash_address: Address,
    /// The address of the receiver's token holding.
    pub receiver_address: Address,
    /// The lock record slot: `None` until created, `None` again once closed.
    pub record: Option<StashAccount>,
    /// The locked holding: `None` once emptied and closed.
    pub stash_holding: Option<TokenHolding>,
    /// The receiver holding's balance.
    pub receiver_amount: u64,
}

/// One initialize call at time `now`, as a step from world to world: on
/// success the record exists with the caller as depositor and the unlock
/// time `now + lock_seconds`, and the holding's authority has passed to the
/// derived signer; on any error the world is unchanged.
///
/// Defined for worlds that meet the call's stated inputs: a freshly
/// allocated record slot and a holding owned by the caller.
pub open spec fn spec_initialize(w: World, caller: Address, lock_seconds: u64, now: i64) -> (
    World,
    Result<(), CallError>,
) {
    match unlock_time_spec(now, lock_seconds) {
        Err(e) => (w, Err(CallError::Vault(e))),
        Ok(t) => (
            World {
                record: Some(
                    StashAccount {
                        initializer_key: caller,
                        stash_token_account: w.stash_address,
                        unlock_time: t,
                    },
                ),
                stash_holding: Some(
                    TokenHolding {
                        authority: w.vault_authority,
                        amount: w.stash_holding->Some_0.amount,
                    },
                ),
                ..w
            },
            Ok(()),
        ),
    }
}

/// One retrieve call at time `now`, as a step from world to world: the
/// host refuses a missing record; the vault logic refuses a wrong caller
/// or mismatched holding, then an unexpired lock; the ledger refuses a
/// transfer that the derived signer cannot authorize or whose destination
/// balance would overflow. On success the full balance moves to the
/// receiver and the holding and the record are closed, as one atomic unit;
/// on any error the world is unchanged.
pub open spec fn spec_retrieve(w: World, caller: Address, now: i64) -> (
    World,
    Result<(), CallError>,
) {
    match w.record {
        None => (w, Err(CallError::RecordNotFound)),
        Some(rec) => if rec.initializer_key != caller {
            (w, Err(CallError::Vault(VaultError::ConstraintViolation)))
        } else if rec.stash_token_account != w.stash_address {
            (w, Err(CallError::Vault(VaultError::ConstraintViolation)))
        } else if now < rec.unlock_time {
            (w, Err(CallError::Vault(VaultError::StillLocked)))
        } else {
            match w.stash_holding {
                None => (w, Err(CallError::Vault(VaultError::LedgerFailure))),
                Some(h) => if h.authority != w.vault_authority {
                    (w, Err(CallError::Vault(VaultError::LedgerFailure)))
                } else if w.receiver_amount + h.amount > u64::MAX {
                    (w, Err(CallError::Vault(VaultError::LedgerFailure)))
                } else {
                    (
                        World {
                            record: None,
                            stash_holding: None,
                            receiver_amount: (w.receiver_amount + h.amount) as u64,
                            ..w
                        },
                        Ok(()),
                    )
                },
            }
        },
    }
}

impl World {
    /// The record/holding invariant: as long as the lock record exists, it
    /// refers to this world's holding, that holding exists, and its
    /// custodial authority is the derived signer.
    pub open spec fn wf(&self) -> bool {
        self.record matches Some(rec) ==> {
            &&& rec.stash_token_account == self.stash_address
            &&& self.stash_holding matches Some(h) && h.authority == self.vault_authority
        }
    }

    /// A fresh world around one planned deposit: no record yet, the
    /// holding still owned by its depositor, and the derived signer proved
    /// for `program_id`. Returns `None` only when no signer address exists
    /// for the program.
    pub fn new(
        program_id: &Address,
        stash_address: Address,
        receiver_address: Address,
        stash_holding: TokenHolding,
        receiver_amount: u64,
    ) -> (r: Option<World>)
        ensures
            (match r {
                Some(w) => derived_signer(program_id@) == Some(w.vault_authority@)
                    && w == (World {
                    vault_authority: w.vault_authority,
                    stash_address,
                    receiver_address,
                    record: None,
                    stash_holding: Some(stash_holding),
                    receiver_amount,
                }),
                None => derived_signer(program_id@) is None,
            }),
    {
        let (vault_authority, _bump) = match crate::authority::vault_authority(program_id) {
            Some(p) => p,
            None => {
                return None;
            },
        };
        Some(
            World {
                vault_authority,
                stash_address,
                receiver_address,
                record: None,
                stash_holding: Some(stash_holding),
                receiver_amount,
            },
        )
    }

    /// Create the time-locked vault: one initialize call at time `now`.
    pub fn initialize(&mut self, caller: &Address, lock_seconds: u64, now: i64) -> (r: Result<
        (),
        CallError,
    >)
        requires
            old(self).record is None,
            old(self).stash_holding matches Some(h) && h.authority == *caller,
        ensures
            (*final(self), r) == spec_initialize(*old(self), *caller, lock_seconds, now),
    {
        let unlock_time = match get_unlock_time(now, lock_seconds) {
            Ok(t) => t,
            Err(e) => {
                return Err(CallError::Vault(e));
            },
        };
        let amount: u64 = match &self.stash_holding {
            Some(h) => h.amount,
            None => vstd::pervasive::unreached(),
        };
        self.record = Some(
            StashAccount {
                initializer_key: *caller,
                stash_token_account: self.stash_address,
                unlock_time,
            },
        );
        self.stash_holding = Some(TokenHolding { authority: self.vault_authority, amount });
        Ok(())
    }

    /// Release the vault: one retrieve call by `caller` at time `now`.
    pub fn retrieve(&mut self, caller: &Address, now: i64) -> (r: Result<(), CallError>)
        ensures
            (*final(self), r) == spec_retrieve(*old(self), *caller, now),
    {
        let record = match &self.record {
            Some(rec) => *rec,
            None => {
                return Err(CallError::RecordNotFound);
            },
        };
        if !record.initializer_key.equals(caller) {
            return Err(CallError::Vault(VaultError::ConstraintViolation));
        }
        if !record.stash_token_account.equals(&self.stash_address) {
            return Err(CallError::Vault(VaultError::ConstraintViolation));
        }
        if is_locked(record.unlock_time, now) {
            return Err(CallError::Vault(VaultError::StillLocked));
        }
        let holding = match &self.stash_holding {
            Some(h) => *h,
            None => {
                return Err(CallError::Vault(VaultError::LedgerFailure));
            },
        };
        if !holding.authority.equals(&self.vault_authority) {
            return Err(CallError::Vault(VaultError::LedgerFailure));
        }
        if self.receiver_amount > u64::MAX - holding.amount {
            return Err(CallError::Vault(VaultError::LedgerFailure));
        }
        self.receiver_amount = self.receiver_amount + holding.amount;
        self.stash_holding = None;
        self.record = None;
        Ok(())
    }
}

} // verus!
