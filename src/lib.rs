//! A two-party token escrow. The initializer locks an amount of one asset kind
//! in a vault whose authority is derived, never held as a key; after the expiry
//! timestamp the named receiver settles: they deposit the other side's amount,
//! and both vaults pay out, less the protocol fee, as one all-or-nothing unit.
//! The record is then removed, so a second claim finds nothing.
//!
//! Settlement is the only way out of an escrow: there is no refund or
//! cancellation path for an escrow that is never claimed.

use vstd::prelude::*;

pub mod address;
pub mod authority;
pub mod claim;
pub mod error;
pub mod events;
pub mod fee;
pub mod initialize;
pub mod ledger;
pub mod lifecycle;
pub mod state;

use crate::address::Address;
use crate::authority::{derive_authority, program_address, VaultRole};
use crate::claim::{vaults_derived, ClaimEscrow, VaultAuthorities};
use crate::error::EscrowError;
use crate::events::{EscrowClaimed, EscrowInitialized};
use crate::fee::FeePolicy;
use crate::initialize::InitializeEscrow;
use crate::ledger::Ledger;
use crate::state::Escrow;

verus! {

/// Entry point of initialization: see `InitializeEscrow::initialize`.
pub fn initialize_escrow(
    accounts: &InitializeEscrow,
    slot: &mut Option<Escrow>,
    ledger: &mut Ledger,
    initializer_amount: u64,
    receiver_amount: u64,
    expiry: i64,
    receiver: Address,
    fee_basis_point: u16,
    fee_collector: Address,
) -> (r: Result<EscrowInitialized, EscrowError>)
    requires
        old(ledger).wf(),
    ensures
        final(ledger).wf(),
        (r, *final(slot), final(ledger)@) == accounts.initialize_result(
            *old(slot),
            old(ledger)@,
            initializer_amount,
            receiver_amount,
            expiry,
            receiver,
            fee_basis_point,
            fee_collector,
        ),
        r is Ok ==> final(slot)->Some_0.wf(),
{
    accounts.initialize(
        slot,
        ledger,
        initializer_amount,
        receiver_amount,
        expiry,
        receiver,
        fee_basis_point,
        fee_collector,
    )
}

/// Whether all three custody authorities of `escrow` under `program` can be derived.
pub open spec fn authorities_derivable(escrow: Address, program: Address) -> bool {
    &&& program_address(VaultRole::InitializerVault.seed_spec(), escrow@, program@) is Some
    &&& program_address(VaultRole::ReceiverVault.seed_spec(), escrow@, program@) is Some
    &&& program_address(VaultRole::FeeCollector.seed_spec(), escrow@, program@) is Some
}

/// Entry point of settlement for the escrow whose record has identity
/// `escrow_key` under `program_id`: a missing record is refused first; then the
/// custody authorities are derived, and settlement goes on with them.
pub fn claim_escrow(
    accounts: &ClaimEscrow,
    slot: &mut Option<Escrow>,
    ledger: &mut Ledger,
    now: i64,
    escrow_key: &Address,
    program_id: &Address,
    policy: FeePolicy,
) -> (r: Result<EscrowClaimed, EscrowError>)
    requires
        old(ledger).wf(),
    ensures
        final(ledger).wf(),
        (*old(slot)) is None ==> r == Err::<EscrowClaimed, EscrowError>(EscrowError::EscrowNotFound)
            && *final(slot) == *old(slot) && final(ledger)@ == old(ledger)@,
        (*old(slot)) is Some && !authorities_derivable(*escrow_key, *program_id) ==> r == Err::<
            EscrowClaimed,
            EscrowError,
        >(EscrowError::DerivationFailed) && *final(slot) == *old(slot) && final(ledger)@ == old(
            ledger,
        )@,
        (*old(slot)) is Some && authorities_derivable(*escrow_key, *program_id) ==> exists|
            v: VaultAuthorities,
        |
            #[trigger] vaults_derived(v, *escrow_key, *program_id) && (
                r,
                *final(slot),
                final(ledger)@,
            ) == accounts.claim_result(*old(slot), old(ledger)@, now, v, policy),
{
    if slot.is_none() {
        return Err(EscrowError::EscrowNotFound);
    }
    let initializer_vault = match derive_authority(VaultRole::InitializerVault, escrow_key, program_id) {
        Some(d) => d,
        None => return Err(EscrowError::DerivationFailed),
    };
    let receiver_vault = match derive_authority(VaultRole::ReceiverVault, escrow_key, program_id) {
        Some(d) => d,
        None => return Err(EscrowError::DerivationFailed),
    };
    let fee_collector = match derive_authority(VaultRole::FeeCollector, escrow_key, program_id) {
        Some(d) => d,
        None => return Err(EscrowError::DerivationFailed),
    };
    let v = VaultAuthorities { initializer_vault, receiver_vault, fee_collector };
    let r = accounts.claim(slot, ledger, now, &v, policy);
    assert(vaults_derived(v, *escrow_key, *program_id));
    r
}

} // verus!
