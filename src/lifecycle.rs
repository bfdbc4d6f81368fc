use vstd::prelude::*;

use crate::address::Address;
use crate::claim::{leg_fee, settlement_legs, ClaimEscrow, VaultAuthorities};
use crate::error::EscrowError;
use crate::fee::FeePolicy;
use crate::initialize::{deposit_leg, InitializeEscrow};
use crate::ledger::{
    apply_legs,
    initializer_asset_supply,
    lemma_legs_conserve,
    lemma_step_conserves,
    receiver_asset_supply,
    step,
    HOLDINGS,
};
use crate::state::Escrow;

verus! {

/// A claim made before the escrow's expiry is refused with `NotYetExpired`, and
/// the record and every balance stay exactly as they were.
pub proof fn lemma_early_claim_refused(
    accounts: ClaimEscrow,
    e: Escrow,
    b: Seq<u64>,
    now: i64,
    v: VaultAuthorities,
    policy: FeePolicy,
)
    requires
        now < e.expiry,
    ensures
        accounts.claim_result(Some(e), b, now, v, policy) == (
            Err::<crate::events::EscrowClaimed, EscrowError>(EscrowError::NotYetExpired),
            Some(e),
            b,
        ),
{
}

/// Once the escrow has expired, a claim presenting a receiver other than the
/// recorded one is refused with `IdentityMismatch` and moves nothing.
pub proof fn lemma_foreign_receiver_refused(
    accounts: ClaimEscrow,
    e: Escrow,
    b: Seq<u64>,
    now: i64,
    v: VaultAuthorities,
    policy: FeePolicy,
)
    requires
        now >= e.expiry,
        accounts.receiver@ != e.receiver@,
    ensures
        accounts.claim_result(Some(e), b, now, v, policy) == (
            Err::<crate::events::EscrowClaimed, EscrowError>(EscrowError::IdentityMismatch),
            Some(e),
            b,
        ),
{
}

/// Settlement is all-or-nothing: a refused claim, whatever leg or check refused
/// it, leaves the record and every balance as they were; a claim whose legs are
/// not all accepted is refused; and a successful claim applies every leg and
/// removes the record.
pub proof fn lemma_claim_all_or_nothing(
    accounts: ClaimEscrow,
    slot: Option<Escrow>,
    b: Seq<u64>,
    now: i64,
    v: VaultAuthorities,
    policy: FeePolicy,
)
    ensures
        ({
            let (r, s2, b2) = accounts.claim_result(slot, b, now, v, policy);
            &&& r is Err ==> s2 == slot && b2 == b
            &&& r is Ok ==> s2 is None && slot is Some && settlement_legs(slot->Some_0, v, policy) is Ok
                && apply_legs(b, settlement_legs(slot->Some_0, v, policy)->Ok_0) == Ok::<
                Seq<u64>,
                EscrowError,
            >(b2)
            &&& slot is Some && settlement_legs(slot->Some_0, v, policy) is Ok && apply_legs(
                b,
                settlement_legs(slot->Some_0, v, policy)->Ok_0,
            ) is Err ==> r is Err
        }),
{
}

/// A second claim after a successful one finds no record: it is refused with
/// `EscrowNotFound` and changes nothing, whoever makes it and whenever.
pub proof fn lemma_second_claim_refused(
    accounts: ClaimEscrow,
    slot: Option<Escrow>,
    b: Seq<u64>,
    now: i64,
    v: VaultAuthorities,
    policy: FeePolicy,
    again: ClaimEscrow,
    later: i64,
    v2: VaultAuthorities,
    policy2: FeePolicy,
)
    requires
        accounts.claim_result(slot, b, now, v, policy).0 is Ok,
    ensures
        ({
            let (_, s1, b1) = accounts.claim_result(slot, b, now, v, policy);
            again.claim_result(s1, b1, later, v2, policy2) == (
                Err::<crate::events::EscrowClaimed, EscrowError>(EscrowError::EscrowNotFound),
                s1,
                b1,
            )
        }),
{
}

/// Every leg of a settlement moves value within one asset kind.
pub proof fn lemma_settlement_legs_keep_kind(e: Escrow, v: VaultAuthorities, policy: FeePolicy)
    requires
        settlement_legs(e, v, policy) is Ok,
    ensures
        forall|i: int|
            0 <= i < settlement_legs(e, v, policy)->Ok_0.len() ==> (#[trigger] settlement_legs(
                e,
                v,
                policy,
            )->Ok_0[i]).keeps_asset_kind(),
{
    let legs = settlement_legs(e, v, policy)->Ok_0;
    assert forall|i: int| 0 <= i < legs.len() implies (#[trigger] legs[i]).keeps_asset_kind() by {
    }
}

/// Initialization followed by a successful claim creates and destroys no value:
/// the supply of each asset kind over all holdings is what it was before
/// initialization; only the fee is redirected to the fee collector.
pub proof fn lemma_escrow_conserves_supply(
    init: InitializeEscrow,
    b0: Seq<u64>,
    initializer_amount: u64,
    receiver_amount: u64,
    expiry: i64,
    receiver: Address,
    fee_basis_point: u16,
    fee_collector: Address,
    accounts: ClaimEscrow,
    now: i64,
    v: VaultAuthorities,
    policy: FeePolicy,
)
    requires
        b0.len() == HOLDINGS,
        ({
            let (r1, s1, b1) = init.initialize_result(
                None,
                b0,
                initializer_amount,
                receiver_amount,
                expiry,
                receiver,
                fee_basis_point,
                fee_collector,
            );
            r1 is Ok && accounts.claim_result(s1, b1, now, v, policy).0 is Ok
        }),
    ensures
        ({
            let (_, s1, b1) = init.initialize_result(
                None,
                b0,
                initializer_amount,
                receiver_amount,
                expiry,
                receiver,
                fee_basis_point,
                fee_collector,
            );
            let (_, _, b2) = accounts.claim_result(s1, b1, now, v, policy);
            &&& initializer_asset_supply(b2) == initializer_asset_supply(b0)
            &&& receiver_asset_supply(b2) == receiver_asset_supply(b0)
        }),
{
    let (_, s1, b1) = init.initialize_result(
        None,
        b0,
        initializer_amount,
        receiver_amount,
        expiry,
        receiver,
        fee_basis_point,
        fee_collector,
    );
    lemma_step_conserves(b0, deposit_leg(initializer_amount));
    assert(b1 == step(b0, deposit_leg(initializer_amount))->Ok_0);
    let e = s1->Some_0;
    lemma_settlement_legs_keep_kind(e, v, policy);
    lemma_legs_conserve(b1, settlement_legs(e, v, policy)->Ok_0);
}

/// A successful settlement moves exactly the agreed amounts: the receiver's
/// deposit passes through the receiver vault, each party's receiving account
/// gains the other side's amount less its fee, the fee collector gains the fees,
/// and the initializer vault is emptied of the locked amount.
#[verifier::rlimit(50)]
pub proof fn lemma_settlement_balances(
    accounts: ClaimEscrow,
    e: Escrow,
    b: Seq<u64>,
    now: i64,
    v: VaultAuthorities,
    policy: FeePolicy,
)
    requires
        b.len() == HOLDINGS,
        accounts.claim_result(Some(e), b, now, v, policy).0 is Ok,
    ensures
        ({
            let b2 = accounts.claim_result(Some(e), b, now, v, policy).2;
            let init_fee = leg_fee(policy.charges_initializer_spec(), e.initializer_amount, e.fee_basis_point);
            let recv_fee = leg_fee(policy.charges_receiver_spec(), e.receiver_amount, e.fee_basis_point);
            &&& b2.len() == HOLDINGS
            &&& b2[0] == b[0]
            &&& b2[1] == b[1] - e.initializer_amount
            &&& b2[2] == b[2] + (e.initializer_amount - init_fee)
            &&& b2[3] == b[3] + init_fee
            &&& b2[4] == b[4] - e.receiver_amount
            &&& b2[5] == b[5]
            &&& b2[6] == b[6] + (e.receiver_amount - recv_fee)
            &&& b2[7] == b[7] + recv_fee
        }),
{
    reveal_with_fuel(apply_legs, 6);
    let init_fee = leg_fee(policy.charges_initializer_spec(), e.initializer_amount, e.fee_basis_point);
    let recv_fee = leg_fee(policy.charges_receiver_spec(), e.receiver_amount, e.fee_basis_point);
    let legs = settlement_legs(e, v, policy)->Ok_0;
    let b1 = step(b, legs[0])->Ok_0;
    assert(legs.drop_first() =~= legs.subrange(1, legs.len() as int));
    if init_fee > 0 {
        if recv_fee > 0 {
            assert(legs.len() == 5);
        } else {
            assert(legs.len() == 4);
        }
    } else {
        if recv_fee > 0 {
            assert(legs.len() == 4);
        } else {
            assert(legs.len() == 3);
        }
    }
}

} // verus!
