use vstd::prelude::*;

use anchor_lang::prelude::Pubkey;

use vstd::string::StringSliceAdditionalSpecFns;

use crate::address::Address;

verus! {

/// The program-derived address and bump salt that the runtime's address
/// derivation gives for one seed, an escrow identity and a program identity;
/// `None` when no bump yields an address off the curve.
pub uninterp spec fn program_address(seed: Seq<u8>, escrow: Seq<u8>, program: Seq<u8>) -> Option<
    (Seq<u8>, u8),
>;

/// Relies on `Pubkey::try_find_program_address` over the seeds `[seed, escrow]`:
/// a deterministic search (hash of seeds, bump and program identity) whose
/// result depends on its arguments alone. It returns `None` rather than
/// panicking when no bump works or a seed is too long.
#[verifier::external_body]
fn find_program_address(seed: &[u8], escrow: &[u8; 32], program: &[u8; 32]) -> (r: Option<
    ([u8; 32], u8),
>)
    ensures
        match r {
            Some((k, b)) => program_address(seed@, escrow@, program@) == Some((k@, b)),
            None => program_address(seed@, escrow@, program@) is None,
        },
{
    let program = Pubkey::new_from_array(*program);
    Pubkey::try_find_program_address(&[seed, &escrow[..]], &program).map(|(k, b)| (k.to_bytes(), b))
}

/// The roles whose custody authority is derived rather than held as a key.
#[derive(Clone, Copy, Debug, PartialEq, Eq, Structural)]
pub enum VaultRole {
    InitializerVault,
    ReceiverVault,
    FeeCollector,
}

impl VaultRole {
    /// The role tag mixed into the derivation.
    pub open spec fn seed_spec(self) -> Seq<u8> {
        match self {
            VaultRole::InitializerVault => "initializer_vault".spec_bytes(),
            VaultRole::ReceiverVault => "reciever_vault".spec_bytes(),
            VaultRole::FeeCollector => "fee_collector".spec_bytes(),
        }
    }

    pub fn seed(&self) -> (r: &'static [u8])
        ensures
            r@ == self.seed_spec(),
    {
        match self {
            VaultRole::InitializerVault => "initializer_vault".as_bytes(),
            VaultRole::ReceiverVault => "reciever_vault".as_bytes(),
            VaultRole::FeeCollector => "fee_collector".as_bytes(),
        }
    }
}

/// A derived custody authority: its identity and the bump salt that proves the
/// derivation when the authority signs a transfer.
#[derive(Clone, Copy, Debug, PartialEq, Eq)]
pub struct DerivedAuthority {
    pub address: Address,
    pub bump: u8,
}

/// Whether `d` is what the derivation gives for `role` on `escrow` under `program`.
pub open spec fn is_derived(d: DerivedAuthority, role: VaultRole, escrow: Address, program: Address) -> bool {
    program_address(role.seed_spec(), escrow@, program@) == Some((d.address@, d.bump))
}

/// Derives the custody authority of `role` for the escrow `escrow` owned by
/// `program`: the same inputs always give the same authority, and no key for it
/// exists anywhere.
pub fn derive_authority(role: VaultRole, escrow: &Address, program: &Address) -> (r: Option<
    DerivedAuthority,
>)
    ensures
        match r {
            Some(d) => is_derived(d, role, *escrow, *program),
            None => program_address(role.seed_spec(), escrow@, program@) is None,
        },
{
    match find_program_address(role.seed(), &escrow.bytes, &program.bytes) {
        Some((k, b)) => Some(DerivedAuthority { address: Address { bytes: k }, bump: b }),
        None => None,
    }
}

} // verus!
