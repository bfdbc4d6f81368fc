use vstd::prelude::*;

verus! {

/// Why an escrow operation was refused. Every refusal leaves the escrow record
/// and all balances exactly as they were before the call.
#[derive(Clone, Copy, Debug, PartialEq, Eq, Structural)]
pub enum EscrowError {
    /// Kept for a flow that forbids claiming after expiry; the claim flow here
    /// only ever permits claiming after expiry.
    AlreadyExpired,
    /// The claim came before the escrow's expiry timestamp.
    NotYetExpired,
    /// A presented party, asset kind or custody authority differs from the record.
    IdentityMismatch,
    /// A fee or balance computation left the range of `u64`.
    ArithmeticFault,
    /// An offered amount is zero.
    InvalidAmount,
    /// The fee rate is above 10000 basis points.
    InvalidFeeRate,
    /// The initializer and the receiver are the same party.
    InvalidParties,
    /// An escrow record already occupies the slot being initialized.
    EscrowExists,
    /// No escrow record exists (never created, or already settled).
    EscrowNotFound,
    /// A custody authority could not be derived.
    DerivationFailed,
    /// A transfer asked for more than the source holding has.
    InsufficientFunds,
    /// A transfer was not signed by the authority that owns its source holding.
    Unauthorized,
}

} // verus!
