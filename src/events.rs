use vstd::prelude::*;

use crate::address::Address;

verus! {

/// Notification that an escrow was created and the initializer's asset locked.
#[derive(Clone, Copy, Debug, PartialEq, Eq)]
pub struct EscrowInitialized {
    pub initializer: Address,
    pub receiver: Address,
    pub mint: Address,
    pub amount: u64,
    pub expiry: i64,
}

/// Notification that an escrow was settled; `amount` is the initializer's gross
/// amount.
#[derive(Clone, Copy, Debug, PartialEq, Eq)]
pub struct EscrowClaimed {
    pub initializer: Address,
    pub receiver: Address,
    pub mint: Address,
    pub amount: u64,
}

} // verus!
