use vstd::prelude::*;

use crate::address::Address;

verus! {

/// Bytes that the persisted escrow record takes: an 8-byte tag, the two party
/// identities, each asset kind with its amount, the fee rate, the fee collector
/// and the expiry timestamp.
pub const ESCROW_SPACE: usize = 8 + 32 + 32 + 32 + 8 + 32 + 8 + 2 + 32 + 8;

/// The persisted agreement between an initializer and a receiver. It is written
/// once at initialization and never changed afterwards; settlement removes it.
#[derive(Clone, Copy, Debug, PartialEq, Eq)]
pub struct Escrow {
    pub initializer: Address,
    pub receiver: Address,
    pub initializer_mint: Address,
    pub initializer_amount: u64,
    pub receiver_mint: Address,
    pub receiver_amount: u64,
    pub fee_basis_point: u16,
    pub fee_collector: Address,
    pub expiry: i64,
}

impl Escrow {
    /// What initialization guarantees of every record it writes.
    pub open spec fn wf(&self) -> bool {
        &&& self.initializer_amount > 0
        &&& self.receiver_amount > 0
        &&& self.fee_basis_point <= 10000
        &&& self.initializer@ != self.receiver@
    }
}

} // verus!
