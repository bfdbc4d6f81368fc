use vstd::prelude::*;

use crate::error::EscrowError;

verus! {

/// The largest fee rate accepted at initialization: 10000 basis points, or 100%.
pub const MAX_BASIS_POINTS: u16 = 10000;

/// The fee owed on `amount` at `basis_points`, rounded down.
pub open spec fn fee_spec(amount: int, basis_points: int) -> int {
    (amount * basis_points) / 10000
}

/// The protocol fee `floor(amount * basis_points / 10000)`, computed with a
/// 128-bit intermediate so that the product cannot overflow. A fee that does
/// not fit in `u64` (only possible above 10000 basis points) is an
/// `ArithmeticFault`, never truncated.
pub fn fee(amount: u64, basis_points: u16) -> (r: Result<u64, EscrowError>)
    ensures
        fee_spec(amount as int, basis_points as int) <= u64::MAX ==> r == Ok::<u64, EscrowError>(
            fee_spec(amount as int, basis_points as int) as u64,
        ),
        fee_spec(amount as int, basis_points as int) > u64::MAX ==> r == Err::<u64, EscrowError>(
            EscrowError::ArithmeticFault,
        ),
{
    let a: u128 = amount as u128;
    let b: u128 = basis_points as u128;
    proof {
        assert(a * b <= 0xffff_ffff_ffff_ffff * 0xffff) by (nonlinear_arith)
            requires
                a <= 0xffff_ffff_ffff_ffff,
                b <= 0xffff,
        ;
    }
    let q: u128 = (a * b) / 10000;
    if q > u64::MAX as u128 {
        Err(EscrowError::ArithmeticFault)
    } else {
        Ok(q as u64)
    }
}

/// What is left of `amount` once `fee` is taken; an `ArithmeticFault` when the
/// fee exceeds the amount.
pub fn net(amount: u64, fee: u64) -> (r: Result<u64, EscrowError>)
    ensures
        fee <= amount ==> r == Ok::<u64, EscrowError>((amount - fee) as u64),
        fee > amount ==> r == Err::<u64, EscrowError>(EscrowError::ArithmeticFault),
{
    if fee > amount {
        Err(EscrowError::ArithmeticFault)
    } else {
        Ok(amount - fee)
    }
}

/// For every rate of at most 10000 basis points the fee is exactly
/// `floor(amount * basis_points / 10000)`, never exceeds the amount, and fee
/// plus net gives back the amount.
pub proof fn lemma_fee_splits_amount(amount: u64, basis_points: u16)
    requires
        basis_points <= 10000,
    ensures
        0 <= fee_spec(amount as int, basis_points as int) <= amount,
        fee_spec(amount as int, basis_points as int) + (amount - fee_spec(
            amount as int,
            basis_points as int,
        )) == amount,
{
    let a = amount as int;
    let b = basis_points as int;
    assert(a * b <= a * 10000) by (nonlinear_arith)
        requires
            0 <= b <= 10000,
            0 <= a,
    ;
    assert(0 <= a * b) by (nonlinear_arith)
        requires
            0 <= b,
            0 <= a,
    ;
    assert((a * b) / 10000 <= a) by (nonlinear_arith)
        requires
            0 <= a * b <= a * 10000,
    ;
}

/// Which settlement legs are charged the protocol fee. The reference policy
/// charges the initializer's leg only.
#[derive(Clone, Copy, Debug, PartialEq, Eq, Structural)]
pub enum FeePolicy {
    InitializerOnly,
    Both,
    ReceiverOnly,
}

impl FeePolicy {
    pub open spec fn charges_initializer_spec(self) -> bool {
        self == FeePolicy::InitializerOnly || self == FeePolicy::Both
    }

    pub open spec fn charges_receiver_spec(self) -> bool {
        self == FeePolicy::ReceiverOnly || self == FeePolicy::Both
    }

    pub fn charges_initializer(&self) -> (r: bool)
        ensures
            r == self.charges_initializer_spec(),
    {
        match self {
            FeePolicy::InitializerOnly => true,
            FeePolicy::Both => true,
            FeePolicy::ReceiverOnly => false,
        }
    }

    pub fn charges_receiver(&self) -> (r: bool)
        ensures
            r == self.charges_receiver_spec(),
    {
        match self {
            FeePolicy::InitializerOnly => false,
            FeePolicy::Both => true,
            FeePolicy::ReceiverOnly => true,
        }
    }
}

} // verus!
