//! The persistent lock record.

use vstd::prelude::*;
use crate::address::Address;

verus! {

/// The persistent lock record: who deposited, which token holding is under
/// lock, and the absolute time after which release is permitted. All three
/// fields are set at creation and never change; the record is destroyed as
/// a whole when the deposit is released.
#[derive(Clone, Copy, Debug)]
pub struct StashAccount {
    /// The depositor: the only identity allowed to retrieve.
    pub initializer_key: Address,
    /// The token holding whose custody this record describes.
    pub stash_token_account: Address,
    /// Release is permitted at any time `now >= unlock_time`.
    pub unlock_time: i64,
}

} // verus!
