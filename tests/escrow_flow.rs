use escrow::address::Address;
use escrow::authority::{derive_authority, VaultRole};
use escrow::claim::{plan_settlement, ClaimEscrow, VaultAuthorities};
use escrow::error::EscrowError;
use escrow::fee::{fee, net, FeePolicy};
use escrow::initialize::InitializeEscrow;
use escrow::ledger::{Holding, Leg, Ledger, Signer};
use escrow::state::{Escrow, ESCROW_SPACE};
use escrow::{claim_escrow, initialize_escrow};

fn addr(tag: u8) -> Address {
    Address::new([tag; 32])
}

const INITIALIZER: u8 = 1;
const RECEIVER: u8 = 2;
const MINT_A: u8 = 3;
const MINT_B: u8 = 4;
const COLLECTOR: u8 = 5;
const ESCROW_KEY: u8 = 6;
const PROGRAM: u8 = 7;

fn init_accounts() -> InitializeEscrow {
    InitializeEscrow {
        initializer: addr(INITIALIZER),
        initializer_mint: addr(MINT_A),
        receiver_mint: addr(MINT_B),
    }
}

fn vaults() -> VaultAuthorities {
    let key = addr(ESCROW_KEY);
    let program = addr(PROGRAM);
    VaultAuthorities {
        initializer_vault: derive_authority(VaultRole::InitializerVault, &key, &program).unwrap(),
        receiver_vault: derive_authority(VaultRole::ReceiverVault, &key, &program).unwrap(),
        fee_collector: derive_authority(VaultRole::FeeCollector, &key, &program).unwrap(),
    }
}

fn claim_accounts() -> ClaimEscrow {
    let v = vaults();
    ClaimEscrow {
        initializer: addr(INITIALIZER),
        receiver: addr(RECEIVER),
        initializer_mint: addr(MINT_A),
        receiver_mint: addr(MINT_B),
        initializer_vault_authority: v.initializer_vault.address,
        receiver_vault_authority: v.receiver_vault.address,
        fee_collector_authority: v.fee_collector.address,
    }
}

fn funded(initializer_balance: u64, receiver_balance: u64) -> Ledger {
    Ledger::new([initializer_balance, 0, 0, 0, receiver_balance, 0, 0, 0])
}

/// Initializes the reference escrow: 1000 against 2000 at 1%, expiring at 100.
fn initialized(ledger: &mut Ledger) -> Option<Escrow> {
    let mut slot: Option<Escrow> = None;
    let r = initialize_escrow(
        &init_accounts(),
        &mut slot,
        ledger,
        1000,
        2000,
        100,
        addr(RECEIVER),
        100,
        addr(COLLECTOR),
    );
    assert!(r.is_ok());
    slot
}

fn claim_at(slot: &mut Option<Escrow>, ledger: &mut Ledger, now: i64, accounts: &ClaimEscrow) -> Result<(), EscrowError> {
    claim_escrow(
        accounts,
        slot,
        ledger,
        now,
        &addr(ESCROW_KEY),
        &addr(PROGRAM),
        FeePolicy::InitializerOnly,
    )
    .map(|_| ())
}

fn total(ledger: &Ledger, holdings: [Holding; 4]) -> u64 {
    holdings.iter().map(|h| ledger.balance(*h)).sum()
}

#[test]
fn fee_is_floor_of_basis_points() {
    assert_eq!(fee(1000, 100), Ok(10));
    assert_eq!(fee(999, 1), Ok(0));
    assert_eq!(fee(12345, 250), Ok(308));
    assert_eq!(fee(1000, 10000), Ok(1000));
    assert_eq!(fee(1000, 0), Ok(0));
}

#[test]
fn fee_of_largest_amount_does_not_overflow() {
    assert_eq!(fee(u64::MAX, 10000), Ok(u64::MAX));
    assert_eq!(fee(u64::MAX, 5000), Ok(u64::MAX / 2));
    assert_eq!(fee(u64::MAX, 65535), Err(EscrowError::ArithmeticFault));
}

#[test]
fn fee_and_net_add_up_to_amount() {
    for &(amount, bps) in &[(1000u64, 100u16), (7, 3333), (u64::MAX, 9999), (1, 10000), (0, 500)] {
        let f = fee(amount, bps).unwrap();
        let n = net(amount, f).unwrap();
        assert_eq!(f + n, amount);
        assert_eq!(f as u128, (amount as u128 * bps as u128) / 10000);
    }
}

#[test]
fn net_refuses_fee_above_amount() {
    assert_eq!(net(5, 6), Err(EscrowError::ArithmeticFault));
    assert_eq!(net(5, 5), Ok(0));
}

#[test]
fn record_space_is_fixed() {
    assert_eq!(ESCROW_SPACE, 194);
}

#[test]
fn initialize_locks_offer_and_writes_record() {
    let mut ledger = funded(1500, 2000);
    let mut slot: Option<Escrow> = None;
    let event = initialize_escrow(
        &init_accounts(),
        &mut slot,
        &mut ledger,
        1000,
        2000,
        -5,
        addr(RECEIVER),
        100,
        addr(COLLECTOR),
    )
    .unwrap();
    assert_eq!(event.amount, 1000);
    assert_eq!(event.expiry, -5);
    assert_eq!(event.receiver, addr(RECEIVER));
    assert_eq!(event.mint, addr(MINT_A));
    let e = slot.unwrap();
    assert_eq!(e.initializer, addr(INITIALIZER));
    assert_eq!(e.receiver_mint, addr(MINT_B));
    assert_eq!(e.receiver_amount, 2000);
    assert_eq!(e.fee_basis_point, 100);
    assert_eq!(e.fee_collector, addr(COLLECTOR));
    assert_eq!(ledger.balance(Holding::InitializerSource), 500);
    assert_eq!(ledger.balance(Holding::InitializerVault), 1000);
}

#[test]
fn initialize_refuses_bad_inputs() {
    let cases: [(u64, u64, u16, u8, EscrowError); 4] = [
        (0, 2000, 100, RECEIVER, EscrowError::InvalidAmount),
        (1000, 0, 100, RECEIVER, EscrowError::InvalidAmount),
        (1000, 2000, 10001, RECEIVER, EscrowError::InvalidFeeRate),
        (1000, 2000, 100, INITIALIZER, EscrowError::InvalidParties),
    ];
    for (a, b, bps, recv, err) in cases {
        let mut ledger = funded(1000, 2000);
        let mut slot: Option<Escrow> = None;
        let r = initialize_escrow(&init_accounts(), &mut slot, &mut ledger, a, b, 100, addr(recv), bps, addr(COLLECTOR));
        assert_eq!(r, Err(err));
        assert!(slot.is_none());
        assert_eq!(ledger.balances, vec![1000, 0, 0, 0, 2000, 0, 0, 0]);
    }
}

#[test]
fn initialize_without_funds_creates_nothing() {
    let mut ledger = funded(999, 2000);
    let mut slot: Option<Escrow> = None;
    let r = initialize_escrow(&init_accounts(), &mut slot, &mut ledger, 1000, 2000, 100, addr(RECEIVER), 100, addr(COLLECTOR));
    assert_eq!(r, Err(EscrowError::InsufficientFunds));
    assert!(slot.is_none());
    assert_eq!(ledger.balances, vec![999, 0, 0, 0, 2000, 0, 0, 0]);
}

#[test]
fn initialize_refuses_occupied_slot() {
    let mut ledger = funded(2000, 2000);
    let mut slot = initialized(&mut ledger);
    let before = ledger.balances.clone();
    let r = initialize_escrow(&init_accounts(), &mut slot, &mut ledger, 1000, 2000, 100, addr(RECEIVER), 100, addr(COLLECTOR));
    assert_eq!(r, Err(EscrowError::EscrowExists));
    assert_eq!(ledger.balances, before);
}

#[test]
fn end_to_end_settlement_pays_each_party() {
    let mut ledger = funded(1000, 2000);
    let mut slot = initialized(&mut ledger);
    let event = claim_escrow(
        &claim_accounts(),
        &mut slot,
        &mut ledger,
        100,
        &addr(ESCROW_KEY),
        &addr(PROGRAM),
        FeePolicy::InitializerOnly,
    )
    .unwrap();
    assert_eq!(ledger.balance(Holding::InitializerReceiving), 2000);
    assert_eq!(ledger.balance(Holding::ReceiverReceiving), 990);
    assert_eq!(ledger.balance(Holding::FeeCollectorInitializer), 10);
    assert_eq!(ledger.balance(Holding::FeeCollectorReceiver), 0);
    assert_eq!(ledger.balance(Holding::InitializerVault), 0);
    assert_eq!(ledger.balance(Holding::ReceiverVault), 0);
    assert!(slot.is_none());
    assert_eq!(event.amount, 1000);
    assert_eq!(event.initializer, addr(INITIALIZER));
    assert_eq!(event.receiver, addr(RECEIVER));
    assert_eq!(event.mint, addr(MINT_A));
}

#[test]
fn settlement_conserves_supply() {
    let mut ledger = funded(1234, 5678);
    let a = [Holding::InitializerSource, Holding::InitializerVault, Holding::ReceiverReceiving, Holding::FeeCollectorInitializer];
    let b = [Holding::ReceiverSource, Holding::ReceiverVault, Holding::InitializerReceiving, Holding::FeeCollectorReceiver];
    let mut slot = initialized(&mut ledger);
    assert_eq!(total(&ledger, a), 1234);
    assert_eq!(claim_at(&mut slot, &mut ledger, 500, &claim_accounts()), Ok(()));
    assert_eq!(total(&ledger, a), 1234);
    assert_eq!(total(&ledger, b), 5678);
    assert_eq!(ledger.balance(Holding::InitializerSource), 234);
    assert_eq!(ledger.balance(Holding::ReceiverSource), 3678);
}

#[test]
fn claim_before_expiry_changes_nothing() {
    let mut ledger = funded(1000, 2000);
    let mut slot = initialized(&mut ledger);
    let record = slot;
    let before = ledger.balances.clone();
    assert_eq!(claim_at(&mut slot, &mut ledger, 99, &claim_accounts()), Err(EscrowError::NotYetExpired));
    assert_eq!(slot, record);
    assert_eq!(ledger.balances, before);
}

#[test]
fn claim_by_other_receiver_changes_nothing() {
    let mut ledger = funded(1000, 2000);
    let mut slot = initialized(&mut ledger);
    let record = slot;
    let before = ledger.balances.clone();
    let mut accounts = claim_accounts();
    accounts.receiver = addr(9);
    assert_eq!(claim_at(&mut slot, &mut ledger, 100, &accounts), Err(EscrowError::IdentityMismatch));
    assert_eq!(slot, record);
    assert_eq!(ledger.balances, before);
}

#[test]
fn claim_with_foreign_vault_authority_is_refused() {
    let mut ledger = funded(1000, 2000);
    let mut slot = initialized(&mut ledger);
    let mut accounts = claim_accounts();
    accounts.initializer_vault_authority = addr(RECEIVER);
    assert_eq!(claim_at(&mut slot, &mut ledger, 100, &accounts), Err(EscrowError::IdentityMismatch));
    assert!(slot.is_some());
}

#[test]
fn claim_with_underfunded_receiver_changes_nothing() {
    let mut ledger = funded(1000, 1999);
    let mut slot = initialized(&mut ledger);
    let record = slot;
    let before = ledger.balances.clone();
    assert_eq!(claim_at(&mut slot, &mut ledger, 100, &claim_accounts()), Err(EscrowError::InsufficientFunds));
    assert_eq!(slot, record);
    assert_eq!(ledger.balances, before);
}

#[test]
fn failure_in_a_late_leg_undoes_earlier_legs() {
    // The last leg overflows the initializer's receiving account after the
    // deposit and the initializer vault's legs went through.
    let mut ledger = Ledger::new([1000, 0, 0, 0, 2000, 0, u64::MAX - 1, 0]);
    let mut slot = initialized(&mut ledger);
    let before = ledger.balances.clone();
    assert_eq!(claim_at(&mut slot, &mut ledger, 100, &claim_accounts()), Err(EscrowError::ArithmeticFault));
    assert!(slot.is_some());
    assert_eq!(ledger.balances, before);
}

#[test]
fn second_claim_finds_no_record() {
    let mut ledger = funded(1000, 2000);
    let mut slot = initialized(&mut ledger);
    assert_eq!(claim_at(&mut slot, &mut ledger, 100, &claim_accounts()), Ok(()));
    let after = ledger.balances.clone();
    assert_eq!(claim_at(&mut slot, &mut ledger, 200, &claim_accounts()), Err(EscrowError::EscrowNotFound));
    assert_eq!(ledger.balances, after);
}

#[test]
fn fee_above_amount_in_record_is_arithmetic_fault() {
    let mut ledger = funded(1000, 2000);
    let mut slot = initialized(&mut ledger);
    if let Some(e) = slot.as_mut() {
        e.fee_basis_point = 20000;
    }
    let before = ledger.balances.clone();
    assert_eq!(claim_at(&mut slot, &mut ledger, 100, &claim_accounts()), Err(EscrowError::ArithmeticFault));
    assert_eq!(ledger.balances, before);
}

#[test]
fn both_legs_charged_under_both_policy() {
    let mut ledger = funded(1000, 2000);
    let mut slot = initialized(&mut ledger);
    let r = claim_escrow(&claim_accounts(), &mut slot, &mut ledger, 100, &addr(ESCROW_KEY), &addr(PROGRAM), FeePolicy::Both);
    assert!(r.is_ok());
    assert_eq!(ledger.balance(Holding::ReceiverReceiving), 990);
    assert_eq!(ledger.balance(Holding::FeeCollectorInitializer), 10);
    assert_eq!(ledger.balance(Holding::InitializerReceiving), 1980);
    assert_eq!(ledger.balance(Holding::FeeCollectorReceiver), 20);
}

#[test]
fn receiver_only_policy_spares_initializer_leg() {
    let mut ledger = funded(1000, 2000);
    let mut slot = initialized(&mut ledger);
    let r = claim_escrow(&claim_accounts(), &mut slot, &mut ledger, 100, &addr(ESCROW_KEY), &addr(PROGRAM), FeePolicy::ReceiverOnly);
    assert!(r.is_ok());
    assert_eq!(ledger.balance(Holding::ReceiverReceiving), 1000);
    assert_eq!(ledger.balance(Holding::InitializerReceiving), 1980);
    assert_eq!(ledger.balance(Holding::FeeCollectorReceiver), 20);
}

#[test]
fn plan_orders_deposit_first_and_skips_zero_fee() {
    let mut ledger = funded(1000, 2000);
    let mut slot = initialized(&mut ledger);
    let mut e = slot.take().unwrap();
    let legs = plan_settlement(&e, &vaults(), FeePolicy::InitializerOnly).unwrap();
    assert_eq!(legs.len(), 4);
    assert_eq!(legs[0], Leg { from: Holding::ReceiverSource, to: Holding::ReceiverVault, amount: 2000, signer: Signer::Receiver });
    assert_eq!(legs[1].to, Holding::FeeCollectorInitializer);
    assert_eq!(legs[1].amount, 10);
    e.fee_basis_point = 0;
    let legs = plan_settlement(&e, &vaults(), FeePolicy::InitializerOnly).unwrap();
    assert_eq!(legs.len(), 3);
    assert_eq!(legs[1].amount, 1000);
}

#[test]
fn transfer_needs_owner_signature() {
    let mut ledger = funded(1000, 2000);
    let leg = Leg { from: Holding::InitializerVault, to: Holding::ReceiverReceiving, amount: 0, signer: Signer::Receiver };
    assert_eq!(ledger.transfer(&leg), Err(EscrowError::Unauthorized));
    let leg = Leg { from: Holding::InitializerSource, to: Holding::InitializerVault, amount: 10, signer: Signer::Initializer };
    assert_eq!(ledger.transfer(&leg), Ok(()));
    assert_eq!(ledger.balances, vec![990, 10, 0, 0, 2000, 0, 0, 0]);
}

#[test]
fn missing_record_is_reported_first() {
    let mut ledger = funded(1000, 2000);
    let mut slot: Option<Escrow> = None;
    assert_eq!(claim_at(&mut slot, &mut ledger, 100, &claim_accounts()), Err(EscrowError::EscrowNotFound));
}

#[test]
fn derived_authorities_are_deterministic_and_distinct() {
    let key = addr(ESCROW_KEY);
    let program = addr(PROGRAM);
    let a = derive_authority(VaultRole::InitializerVault, &key, &program).unwrap();
    let again = derive_authority(VaultRole::InitializerVault, &key, &program).unwrap();
    let b = derive_authority(VaultRole::ReceiverVault, &key, &program).unwrap();
    let c = derive_authority(VaultRole::FeeCollector, &key, &program).unwrap();
    let other = derive_authority(VaultRole::InitializerVault, &addr(8), &program).unwrap();
    assert_eq!(a, again);
    assert_ne!(a.address, b.address);
    assert_ne!(a.address, c.address);
    assert_ne!(b.address, c.address);
    assert_ne!(a.address, other.address);
    assert_ne!(a.address, key);
    assert_ne!(a.address, program);
}

#[test]
fn addresses_compare_by_bytes() {
    let mut bytes = [1u8; 32];
    assert!(addr(1).same_as(&Address::new(bytes)));
    bytes[31] = 0;
    assert!(!addr(1).same_as(&Address::new(bytes)));
}
