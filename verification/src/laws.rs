//! The vault's laws, proved of the spec-level step functions that the
//! executable calls are pinned to.

use vstd::prelude::*;
use crate::address::Address;
use crate::errors::{CallError, VaultError};
use crate::world::{spec_initialize, spec_retrieve, World};

verus! {

/// After a successful initialize at time `t0` with a duration of
/// `lock_seconds`, a retrieve by the depositor at any time `t < t0 +
/// lock_seconds` fails with `StillLocked` and changes nothing.
pub proof fn lemma_retrieve_before_unlock_still_locked(
    w: World,
    caller: Address,
    lock_seconds: u64,
    t0: i64,
    t: i64,
)
    requires
        w.record is None,
        w.stash_holding matches Some(h) && h.authority == caller,
        spec_initialize(w, caller, lock_seconds, t0).1 is Ok,
        t < t0 + lock_seconds,
    ensures
        spec_retrieve(spec_initialize(w, caller, lock_seconds, t0).0, caller, t) == (
            spec_initialize(w, caller, lock_seconds, t0).0,
            Err::<(), CallError>(CallError::Vault(VaultError::StillLocked)),
        ),
{
}

/// After a successful initialize, a retrieve by the depositor at or past
/// the unlock time succeeds exactly once: the full locked balance moves to
/// the receiver, the record and the holding close, and any second retrieve
/// on the now-closed record, by anyone and at any time, fails with
/// `RecordNotFound` and changes nothing.
///
/// Stated for deposits whose amount still fits in the receiver's balance;
/// on the others the ledger refuses the transfer instead.
pub proof fn lemma_retrieve_succeeds_exactly_once(
    w: World,
    caller: Address,
    lock_seconds: u64,
    t0: i64,
    t: i64,
    caller2: Address,
    t2: i64,
)
    requires
        w.record is None,
        w.stash_holding matches Some(h) && h.authority == caller,
        spec_initialize(w, caller, lock_seconds, t0).1 is Ok,
        t >= t0 + lock_seconds,
        w.receiver_amount + w.stash_holding->Some_0.amount <= u64::MAX,
    ensures
        ({
            let w1 = spec_initialize(w, caller, lock_seconds, t0).0;
            let (w2, r2) = spec_retrieve(w1, caller, t);
            &&& r2 == Ok::<(), CallError>(())
            &&& w2.receiver_amount == w.receiver_amount + w.stash_holding->Some_0.amount
            &&& w2.record is None
            &&& w2.stash_holding is None
            &&& spec_retrieve(w2, caller2, t2) == (w2, Err::<(), CallError>(CallError::RecordNotFound))
        }),
{
}

/// A duration that is negative when read as a signed quantity is always
/// refused with `InvalidDuration`, at any time and in any world, and
/// creates no lock record: the world is unchanged.
pub proof fn lemma_negative_duration_rejected(w: World, caller: Address, lock_seconds: u64, t0: i64)
    requires
        lock_seconds > i64::MAX,
    ensures
        spec_initialize(w, caller, lock_seconds, t0) == (
            w,
            Err::<(), CallError>(CallError::Vault(VaultError::InvalidDuration)),
        ),
{
}

/// A duration large enough to push the unlock time past the timestamp
/// range is always refused with `TimeOverflow`, and creates no lock record
/// and no authority reassignment: the world is unchanged.
pub proof fn lemma_time_overflow_rejected(w: World, caller: Address, lock_seconds: u64, t0: i64)
    requires
        lock_seconds <= i64::MAX,
        t0 + lock_seconds > i64::MAX,
    ensures
        spec_initialize(w, caller, lock_seconds, t0) == (
            w,
            Err::<(), CallError>(CallError::Vault(VaultError::TimeOverflow)),
        ),
{
}

/// An initialize call, whatever its outcome, leaves the record/holding
/// invariant standing: on success the new record refers to the holding and
/// the holding's custody passes to the derived signer; on any error the
/// world is unchanged.
pub proof fn lemma_initialize_preserves_wf(w: World, caller: Address, lock_seconds: u64, t0: i64)
    requires
        w.wf(),
    ensures
        spec_initialize(w, caller, lock_seconds, t0).0.wf(),
{
}

/// A retrieve call, whatever its outcome, leaves the record/holding
/// invariant standing: on success the record and the holding close
/// together, as one atomic unit, so no orphaned record remains; on any
/// error the world is unchanged.
pub proof fn lemma_retrieve_preserves_wf(w: World, caller: Address, now: i64)
    requires
        w.wf(),
    ensures
        spec_retrieve(w, caller, now).0.wf(),
{
}

/// A retrieve by any identity other than the depositor named in the lock
/// record fails with `ConstraintViolation` regardless of timing, and
/// changes nothing.
pub proof fn lemma_wrong_caller_rejected(w: World, caller: Address, now: i64)
    requires
        w.record matches Some(rec) && rec.initializer_key != caller,
    ensures
        spec_retrieve(w, caller, now) == (
            w,
            Err::<(), CallError>(CallError::Vault(VaultError::ConstraintViolation)),
        ),
{
}

} // verus!
