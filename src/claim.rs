use vstd::prelude::*;

use crate::address::Address;
use crate::authority::{is_derived, DerivedAuthority, VaultRole};
use crate::error::EscrowError;
use crate::events::EscrowClaimed;
use crate::fee::{fee, fee_spec, net, FeePolicy};
use crate::ledger::{apply_legs, Holding, Leg, Ledger, Signer};
use crate::state::Escrow;

verus! {

/// The accounts presented to settlement: the parties and asset kinds, which must
/// match the record, and the custody authorities, which must match their
/// derivations.
#[derive(Clone, Copy, Debug, PartialEq, Eq)]
pub struct ClaimEscrow {
    pub initializer: Address,
    pub receiver: Address,
    pub initializer_mint: Address,
    pub receiver_mint: Address,
    pub initializer_vault_authority: Address,
    pub receiver_vault_authority: Address,
    pub fee_collector_authority: Address,
}

/// The derived custody authorities of one escrow.
#[derive(Clone, Copy, Debug, PartialEq, Eq)]
pub struct VaultAuthorities {
    pub initializer_vault: DerivedAuthority,
    pub receiver_vault: DerivedAuthority,
    pub fee_collector: DerivedAuthority,
}

/// Whether `v` holds the derivations of all three roles for `escrow` under `program`.
pub open spec fn vaults_derived(v: VaultAuthorities, escrow: Address, program: Address) -> bool {
    &&& is_derived(v.initializer_vault, VaultRole::InitializerVault, escrow, program)
    &&& is_derived(v.receiver_vault, VaultRole::ReceiverVault, escrow, program)
    &&& is_derived(v.fee_collector, VaultRole::FeeCollector, escrow, program)
}

/// The fee charged on a leg of `amount` under the escrow's rate, or zero where
/// the policy does not charge that leg.
pub open spec fn leg_fee(charged: bool, amount: u64, basis_points: u16) -> int {
    if charged {
        fee_spec(amount as int, basis_points as int)
    } else {
        0
    }
}

/// A fee leg out of a vault, present only when the fee is positive.
pub open spec fn fee_legs(from: Holding, to: Holding, fee: int, signer: Signer) -> Seq<Leg> {
    if fee > 0 {
        seq![Leg { from, to, amount: fee as u64, signer }]
    } else {
        Seq::empty()
    }
}

/// The ordered legs of settling `e`: the receiver's deposit first, then the
/// initializer vault's fee and net amount, then the receiver vault's fee and net
/// amount. An `ArithmeticFault` where a fee does not fit or exceeds its amount.
pub open spec fn settlement_legs(e: Escrow, v: VaultAuthorities, policy: FeePolicy) -> Result<
    Seq<Leg>,
    EscrowError,
> {
    let init_fee = leg_fee(policy.charges_initializer_spec(), e.initializer_amount, e.fee_basis_point);
    let recv_fee = leg_fee(policy.charges_receiver_spec(), e.receiver_amount, e.fee_basis_point);
    let init_signer = Signer::Vault { role: VaultRole::InitializerVault, bump: v.initializer_vault.bump };
    let recv_signer = Signer::Vault { role: VaultRole::ReceiverVault, bump: v.receiver_vault.bump };
    if init_fee > e.initializer_amount || recv_fee > e.receiver_amount {
        Err(EscrowError::ArithmeticFault)
    } else {
        Ok(seq![
            Leg {
                from: Holding::ReceiverSource,
                to: Holding::ReceiverVault,
                amount: e.receiver_amount,
                signer: Signer::Receiver,
            },
        ] + fee_legs(Holding::InitializerVault, Holding::FeeCollectorInitializer, init_fee, init_signer)
            + seq![
            Leg {
                from: Holding::InitializerVault,
                to: Holding::ReceiverReceiving,
                amount: (e.initializer_amount - init_fee) as u64,
                signer: init_signer,
            },
        ] + fee_legs(Holding::ReceiverVault, Holding::FeeCollectorReceiver, recv_fee, recv_signer)
            + seq![
            Leg {
                from: Holding::ReceiverVault,
                to: Holding::InitializerReceiving,
                amount: (e.receiver_amount - recv_fee) as u64,
                signer: recv_signer,
            },
        ])
    }
}

/// The fee of one leg, zero where the policy does not charge it.
fn charged_fee(charged: bool, amount: u64, basis_points: u16) -> (r: Result<u64, EscrowError>)
    ensures
        leg_fee(charged, amount, basis_points) <= u64::MAX ==> r == Ok::<u64, EscrowError>(
            leg_fee(charged, amount, basis_points) as u64,
        ),
        leg_fee(charged, amount, basis_points) > u64::MAX ==> r == Err::<u64, EscrowError>(
            EscrowError::ArithmeticFault,
        ),
{
    if charged {
        fee(amount, basis_points)
    } else {
        Ok(0)
    }
}

/// Builds the ordered legs of settling `e`.
pub fn plan_settlement(e: &Escrow, v: &VaultAuthorities, policy: FeePolicy) -> (r: Result<
    Vec<Leg>,
    EscrowError,
>)
    ensures
        match settlement_legs(*e, *v, policy) {
            Ok(legs) => r is Ok && r->Ok_0@ == legs,
            Err(x) => r == Err::<Vec<Leg>, EscrowError>(x),
        },
{
    let init_fee = match charged_fee(policy.charges_initializer(), e.initializer_amount, e.fee_basis_point) {
        Ok(f) => f,
        Err(x) => return Err(x),
    };
    let recv_fee = match charged_fee(policy.charges_receiver(), e.receiver_amount, e.fee_basis_point) {
        Ok(f) => f,
        Err(x) => return Err(x),
    };
    let init_net = match net(e.initializer_amount, init_fee) {
        Ok(n) => n,
        Err(x) => return Err(x),
    };
    let recv_net = match net(e.receiver_amount, recv_fee) {
        Ok(n) => n,
        Err(x) => return Err(x),
    };
    let init_signer = Signer::Vault { role: VaultRole::InitializerVault, bump: v.initializer_vault.bump };
    let recv_signer = Signer::Vault { role: VaultRole::ReceiverVault, bump: v.receiver_vault.bump };
    let mut legs: Vec<Leg> = Vec::new();
    legs.push(
        Leg {
            from: Holding::ReceiverSource,
            to: Holding::ReceiverVault,
            amount: e.receiver_amount,
            signer: Signer::Receiver,
        },
    );
    if init_fee > 0 {
        legs.push(
            Leg {
                from: Holding::InitializerVault,
                to: Holding::FeeCollectorInitializer,
                amount: init_fee,
                signer: init_signer,
            },
        );
    }
    legs.push(
        Leg {
            from: Holding::InitializerVault,
            to: Holding::ReceiverReceiving,
            amount: init_net,
            signer: init_signer,
        },
    );
    if recv_fee > 0 {
        legs.push(
            Leg {
                from: Holding::ReceiverVault,
                to: Holding::FeeCollectorReceiver,
                amount: recv_fee,
                signer: recv_signer,
            },
        );
    }
    legs.push(
        Leg {
            from: Holding::ReceiverVault,
            to: Holding::InitializerReceiving,
            amount: recv_net,
            signer: recv_signer,
        },
    );
    assert(legs@ =~= settlement_legs(*e, *v, policy)->Ok_0);
    Ok(legs)
}

/// The event of settling `e`.
pub open spec fn claimed_event(e: Escrow) -> EscrowClaimed {
    EscrowClaimed {
        initializer: e.initializer,
        receiver: e.receiver,
        mint: e.initializer_mint,
        amount: e.initializer_amount,
    }
}

impl ClaimEscrow {
    /// Whether the presented accounts are those the record and the derivations name.
    pub open spec fn binds(self, e: Escrow, v: VaultAuthorities) -> bool {
        &&& self.initializer@ == e.initializer@
        &&& self.receiver@ == e.receiver@
        &&& self.initializer_mint@ == e.initializer_mint@
        &&& self.receiver_mint@ == e.receiver_mint@
        &&& self.initializer_vault_authority@ == v.initializer_vault.address@
        &&& self.receiver_vault_authority@ == v.receiver_vault.address@
        &&& self.fee_collector_authority@ == v.fee_collector.address@
    }

    /// Outcome of settlement on the record slot `slot` and balances `b` at time
    /// `now`: the answer, the slot afterwards and the balances afterwards. The
    /// checks come in order and the first failure wins; every failure leaves
    /// slot and balances as they were.
    pub open spec fn claim_result(
        self,
        slot: Option<Escrow>,
        b: Seq<u64>,
        now: i64,
        v: VaultAuthorities,
        policy: FeePolicy,
    ) -> (Result<EscrowClaimed, EscrowError>, Option<Escrow>, Seq<u64>) {
        match slot {
            None => (Err(EscrowError::EscrowNotFound), slot, b),
            Some(e) => if now < e.expiry {
                (Err(EscrowError::NotYetExpired), slot, b)
            } else if !self.binds(e, v) {
                (Err(EscrowError::IdentityMismatch), slot, b)
            } else {
                match settlement_legs(e, v, policy) {
                    Err(x) => (Err(x), slot, b),
                    Ok(legs) => match apply_legs(b, legs) {
                        Err(x) => (Err(x), slot, b),
                        Ok(b2) => (Ok(claimed_event(e)), None, b2),
                    },
                }
            },
        }
    }

    fn binds_exec(&self, e: &Escrow, v: &VaultAuthorities) -> (r: bool)
        ensures
            r == self.binds(*e, *v),
    {
        self.initializer.same_as(&e.initializer) && self.receiver.same_as(&e.receiver)
            && self.initializer_mint.same_as(&e.initializer_mint) && self.receiver_mint.same_as(
            &e.receiver_mint,
        ) && self.initializer_vault_authority.same_as(&v.initializer_vault.address)
            && self.receiver_vault_authority.same_as(&v.receiver_vault.address)
            && self.fee_collector_authority.same_as(&v.fee_collector.address)
    }

    /// Settles the escrow in `slot` at time `now`, with `v` the derived custody
    /// authorities: the receiver deposits their amount, each vault pays out its
    /// net amount and any fee, and the record is removed. Either all of that
    /// happens or nothing does.
    pub fn claim(
        &self,
        slot: &mut Option<Escrow>,
        ledger: &mut Ledger,
        now: i64,
        v: &VaultAuthorities,
        policy: FeePolicy,
    ) -> (r: Result<EscrowClaimed, EscrowError>)
        requires
            old(ledger).wf(),
        ensures
            final(ledger).wf(),
            (r, *final(slot), final(ledger)@) == self.claim_result(
                *old(slot),
                old(ledger)@,
                now,
                *v,
                policy,
            ),
    {
        let e = match slot {
            None => return Err(EscrowError::EscrowNotFound),
            Some(e) => *e,
        };
        if now < e.expiry {
            return Err(EscrowError::NotYetExpired);
        }
        if !self.binds_exec(&e, v) {
            return Err(EscrowError::IdentityMismatch);
        }
        let legs = match plan_settlement(&e, v, policy) {
            Ok(legs) => legs,
            Err(x) => return Err(x),
        };
        match ledger.apply(&legs) {
            Err(x) => Err(x),
            Ok(()) => {
                *slot = None;
                Ok(
                    EscrowClaimed {
                        initializer: e.initializer,
                        receiver: e.receiver,
                        mint: e.initializer_mint,
                        amount: e.initializer_amount,
                    },
                )
            },
        }
    }
}

} // verus!
