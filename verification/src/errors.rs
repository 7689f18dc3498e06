//! The ways a vault call can be refused.

use vstd::prelude::*;

verus! {

/// Why the vault logic refused a call. Every error aborts the whole call;
/// the host persists no partial state change.
#[derive(Clone, Copy, Debug, PartialEq, Eq, Structural)]
pub enum VaultError {
    /// The requested lock duration, read as a signed quantity, is negative.
    InvalidDuration,
    /// Adding the duration to the current time leaves the timestamp range.
    TimeOverflow,
    /// Release was attempted before the unlock timestamp.
    StillLocked,
    /// The caller, the lock record and the supplied holding do not belong
    /// together: wrong depositor, or a mismatched holding reference.
    ConstraintViolation,
    /// The token ledger refused a transfer, authority change or close, or
    /// no derived signer address exists for the program.
    LedgerFailure,
}

/// What a whole call against the host can come back with: the host refuses
/// a call on a record that does not exist before the vault logic runs.
#[derive(Clone, Copy, Debug, PartialEq, Eq, Structural)]
pub enum CallError {
    /// The lock record does not exist (never created, or already closed).
    RecordNotFound,
    /// The vault logic itself refused the call.
    Vault(VaultError),
}

} // verus!
