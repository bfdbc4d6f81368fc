use vstd::prelude::*;

use crate::address::Address;
use crate::error::EscrowError;
use crate::events::EscrowInitialized;
use crate::fee::MAX_BASIS_POINTS;
use crate::ledger::{step, Holding, Leg, Ledger, Signer};
use crate::state::Escrow;

verus! {

/// The accounts presented to initialization: the initializer, who signs, and the
/// two asset kinds of the exchange.
#[derive(Clone, Copy, Debug, PartialEq, Eq)]
pub struct InitializeEscrow {
    pub initializer: Address,
    pub initializer_mint: Address,
    pub receiver_mint: Address,
}

/// The leg that locks the initializer's offer in its vault, signed by the
/// initializer's own key.
pub open spec fn deposit_leg(amount: u64) -> Leg {
    Leg {
        from: Holding::InitializerSource,
        to: Holding::InitializerVault,
        amount,
        signer: Signer::Initializer,
    }
}

impl InitializeEscrow {
    /// The record that initialization writes, copied verbatim from its inputs.
    pub open spec fn record(
        self,
        initializer_amount: u64,
        receiver_amount: u64,
        expiry: i64,
        receiver: Address,
        fee_basis_point: u16,
        fee_collector: Address,
    ) -> Escrow {
        Escrow {
            initializer: self.initializer,
            receiver,
            initializer_mint: self.initializer_mint,
            initializer_amount,
            receiver_mint: self.receiver_mint,
            receiver_amount,
            fee_basis_point,
            fee_collector,
            expiry,
        }
    }

    /// Outcome of initialization on the record slot `slot` and balances `b`: the
    /// answer, the slot afterwards and the balances afterwards. Refusals are
    /// checked in order and leave slot and balances as they were.
    pub open spec fn initialize_result(
        self,
        slot: Option<Escrow>,
        b: Seq<u64>,
        initializer_amount: u64,
        receiver_amount: u64,
        expiry: i64,
        receiver: Address,
        fee_basis_point: u16,
        fee_collector: Address,
    ) -> (Result<EscrowInitialized, EscrowError>, Option<Escrow>, Seq<u64>) {
        if slot is Some {
            (Err(EscrowError::EscrowExists), slot, b)
        } else if initializer_amount == 0 || receiver_amount == 0 {
            (Err(EscrowError::InvalidAmount), slot, b)
        } else if fee_basis_point > 10000 {
            (Err(EscrowError::InvalidFeeRate), slot, b)
        } else if self.initializer@ == receiver@ {
            (Err(EscrowError::InvalidParties), slot, b)
        } else {
            match step(b, deposit_leg(initializer_amount)) {
                Err(e) => (Err(e), slot, b),
                Ok(b2) => (
                    Ok(
                        EscrowInitialized {
                            initializer: self.initializer,
                            receiver,
                            mint: self.initializer_mint,
                            amount: initializer_amount,
                            expiry,
                        },
                    ),
                    Some(
                        self.record(
                            initializer_amount,
                            receiver_amount,
                            expiry,
                            receiver,
                            fee_basis_point,
                            fee_collector,
                        ),
                    ),
                    b2,
                ),
            }
        }
    }

    /// Creates the escrow record and locks exactly `initializer_amount` of the
    /// initializer's asset in the initializer vault. The expiry is not compared
    /// with the current time here; it only gates settlement.
    pub fn initialize(
        &self,
        slot: &mut Option<Escrow>,
        ledger: &mut Ledger,
        initializer_amount: u64,
        receiver_amount: u64,
        expiry: i64,
        receiver: Address,
        fee_basis_point: u16,
        fee_collector: Address,
    ) -> (r: Result<EscrowInitialized, EscrowError>)
        requires
            old(ledger).wf(),
        ensures
            final(ledger).wf(),
            (r, *final(slot), final(ledger)@) == self.initialize_result(
                *old(slot),
                old(ledger)@,
                initializer_amount,
                receiver_amount,
                expiry,
                receiver,
                fee_basis_point,
                fee_collector,
            ),
            r is Ok ==> final(slot)->Some_0.wf(),
    {
        if slot.is_some() {
            return Err(EscrowError::EscrowExists);
        }
        if initializer_amount == 0 || receiver_amount == 0 {
            return Err(EscrowError::InvalidAmount);
        }
        if fee_basis_point > MAX_BASIS_POINTS {
            return Err(EscrowError::InvalidFeeRate);
        }
        if self.initializer.same_as(&receiver) {
            return Err(EscrowError::InvalidParties);
        }
        let deposit = Leg {
            from: Holding::InitializerSource,
            to: Holding::InitializerVault,
            amount: initializer_amount,
            signer: Signer::Initializer,
        };
        match ledger.transfer(&deposit) {
            Err(e) => Err(e),
            Ok(()) => {
                *slot = Some(
                    Escrow {
                        initializer: self.initializer,
                        receiver,
                        initializer_mint: self.initializer_mint,
                        initializer_amount,
                        receiver_mint: self.receiver_mint,
                        receiver_amount,
                        fee_basis_point,
                        fee_collector,
                        expiry,
                    },
                );
                Ok(
                    EscrowInitialized {
                        initializer: self.initializer,
                        receiver,
                        mint: self.initializer_mint,
                        amount: initializer_amount,
                        expiry,
                    },
                )
            },
        }
    }
}

} // verus!
