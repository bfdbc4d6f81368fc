use vstd::prelude::*;

use crate::authority::VaultRole;
use crate::error::EscrowError;

verus! {

/// The token holdings that one escrow agreement touches. The first four hold the
/// initializer's asset kind, the last four the receiver's.
#[derive(Clone, Copy, Debug, PartialEq, Eq, Structural)]
pub enum Holding {
    /// The initializer's own holding of the asset they offer.
    InitializerSource,
    /// The program-controlled vault that locks the initializer's asset.
    InitializerVault,
    /// The receiver's account that receives the initializer's asset.
    ReceiverReceiving,
    /// The fee collector's account for the initializer's asset kind.
    FeeCollectorInitializer,
    /// The receiver's own holding of the asset they pay with.
    ReceiverSource,
    /// The program-controlled vault for the receiver's asset.
    ReceiverVault,
    /// The initializer's account that receives the receiver's asset.
    InitializerReceiving,
    /// The fee collector's account for the receiver's asset kind.
    FeeCollectorReceiver,
}

/// Number of holdings in a ledger.
pub const HOLDINGS: usize = 8;

impl Holding {
    pub open spec fn index_spec(self) -> int {
        match self {
            Holding::InitializerSource => 0,
            Holding::InitializerVault => 1,
            Holding::ReceiverReceiving => 2,
            Holding::FeeCollectorInitializer => 3,
            Holding::ReceiverSource => 4,
            Holding::ReceiverVault => 5,
            Holding::InitializerReceiving => 6,
            Holding::FeeCollectorReceiver => 7,
        }
    }

    /// Whether the holding is of the initializer's asset kind.
    pub open spec fn holds_initializer_asset(self) -> bool {
        self.index_spec() < 4
    }

    pub fn index(&self) -> (r: usize)
        ensures
            r == self.index_spec(),
            r < HOLDINGS,
    {
        match self {
            Holding::InitializerSource => 0,
            Holding::InitializerVault => 1,
            Holding::ReceiverReceiving => 2,
            Holding::FeeCollectorInitializer => 3,
            Holding::ReceiverSource => 4,
            Holding::ReceiverVault => 5,
            Holding::InitializerReceiving => 6,
            Holding::FeeCollectorReceiver => 7,
        }
    }
}

/// Who signs a transfer: a party with their own key, or a derived custody
/// authority proving its derivation with its bump salt.
#[derive(Clone, Copy, Debug, PartialEq, Eq, Structural)]
pub enum Signer {
    Initializer,
    Receiver,
    Vault { role: VaultRole, bump: u8 },
}

/// Whether `signer` is the owner of `h`, and so may move funds out of it.
pub open spec fn authorizes(signer: Signer, h: Holding) -> bool {
    match h {
        Holding::InitializerSource | Holding::InitializerReceiving => signer == Signer::Initializer,
        Holding::ReceiverSource | Holding::ReceiverReceiving => signer == Signer::Receiver,
        Holding::InitializerVault => signer matches Signer::Vault { role: VaultRole::InitializerVault, .. },
        Holding::ReceiverVault => signer matches Signer::Vault { role: VaultRole::ReceiverVault, .. },
        Holding::FeeCollectorInitializer | Holding::FeeCollectorReceiver => signer matches Signer::Vault {
            role: VaultRole::FeeCollector,
            ..
        },
    }
}

pub fn signer_authorizes(signer: &Signer, h: &Holding) -> (r: bool)
    ensures
        r == authorizes(*signer, *h),
{
    match h {
        Holding::InitializerSource | Holding::InitializerReceiving => match signer {
            Signer::Initializer => true,
            _ => false,
        },
        Holding::ReceiverSource | Holding::ReceiverReceiving => match signer {
            Signer::Receiver => true,
            _ => false,
        },
        Holding::InitializerVault => match signer {
            Signer::Vault { role: VaultRole::InitializerVault, .. } => true,
            _ => false,
        },
        Holding::ReceiverVault => match signer {
            Signer::Vault { role: VaultRole::ReceiverVault, .. } => true,
            _ => false,
        },
        Holding::FeeCollectorInitializer | Holding::FeeCollectorReceiver => match signer {
            Signer::Vault { role: VaultRole::FeeCollector, .. } => true,
            _ => false,
        },
    }
}

/// One asset movement of a flow.
#[derive(Clone, Copy, Debug, PartialEq, Eq, Structural)]
pub struct Leg {
    pub from: Holding,
    pub to: Holding,
    pub amount: u64,
    pub signer: Signer,
}

impl Leg {
    /// Whether the leg moves value between holdings of one asset kind.
    pub open spec fn keeps_asset_kind(self) -> bool {
        self.from.holds_initializer_asset() == self.to.holds_initializer_asset()
    }
}

/// The transfer service's answer to one leg on balances `b`: refused unless the
/// owner of the source signs and the source covers the amount; a move within one
/// holding changes nothing; a destination that would pass `u64::MAX` is refused.
pub open spec fn step(b: Seq<u64>, leg: Leg) -> Result<Seq<u64>, EscrowError> {
    let f = leg.from.index_spec();
    let t = leg.to.index_spec();
    if !authorizes(leg.signer, leg.from) {
        Err(EscrowError::Unauthorized)
    } else if b[f] < leg.amount {
        Err(EscrowError::InsufficientFunds)
    } else if f == t {
        Ok(b)
    } else if b[t] + leg.amount > u64::MAX {
        Err(EscrowError::ArithmeticFault)
    } else {
        Ok(b.update(f, (b[f] - leg.amount) as u64).update(t, (b[t] + leg.amount) as u64))
    }
}

/// The legs applied in order; the first refusal is the answer.
pub open spec fn apply_legs(b: Seq<u64>, legs: Seq<Leg>) -> Result<Seq<u64>, EscrowError>
    decreases legs.len(),
{
    if legs.len() == 0 {
        Ok(b)
    } else {
        match step(b, legs[0]) {
            Ok(b2) => apply_legs(b2, legs.drop_first()),
            Err(e) => Err(e),
        }
    }
}

/// Total of the initializer's asset kind over the holdings.
pub open spec fn initializer_asset_supply(b: Seq<u64>) -> int {
    b[0] + b[1] + b[2] + b[3]
}

/// Total of the receiver's asset kind over the holdings.
pub open spec fn receiver_asset_supply(b: Seq<u64>) -> int {
    b[4] + b[5] + b[6] + b[7]
}

/// Balances of the holdings of one escrow agreement, as the transfer service
/// keeps them.
#[derive(Debug)]
pub struct Ledger {
    pub balances: Vec<u64>,
}

impl View for Ledger {
    type V = Seq<u64>;

    open spec fn view(&self) -> Seq<u64> {
        self.balances@
    }
}

impl Ledger {
    pub open spec fn wf(&self) -> bool {
        self@.len() == HOLDINGS
    }

    /// A ledger with the given balance for each holding, in the order of `Holding`.
    pub fn new(b: [u64; 8]) -> (r: Ledger)
        ensures
            r.wf(),
            r@ == b@,
    {
        let balances: Vec<u64> = vec![b[0], b[1], b[2], b[3], b[4], b[5], b[6], b[7]];
        let r = Ledger { balances };
        assert(r@ =~= b@);
        r
    }

    pub fn balance(&self, h: Holding) -> (r: u64)
        requires
            self.wf(),
        ensures
            r == self@[h.index_spec()],
    {
        self.balances[h.index()]
    }

    /// Performs one leg; a refused leg changes nothing.
    pub fn transfer(&mut self, leg: &Leg) -> (r: Result<(), EscrowError>)
        requires
            old(self).wf(),
        ensures
            final(self).wf(),
            match step(old(self)@, *leg) {
                Ok(b) => r is Ok && final(self)@ == b,
                Err(e) => r == Err::<(), EscrowError>(e) && final(self)@ == old(self)@,
            },
    {
        let f = leg.from.index();
        let t = leg.to.index();
        if !signer_authorizes(&leg.signer, &leg.from) {
            return Err(EscrowError::Unauthorized);
        }
        if self.balances[f] < leg.amount {
            return Err(EscrowError::InsufficientFunds);
        }
        if f == t {
            return Ok(());
        }
        if self.balances[t] > u64::MAX - leg.amount {
            return Err(EscrowError::ArithmeticFault);
        }
        let from_balance = self.balances[f] - leg.amount;
        let to_balance = self.balances[t] + leg.amount;
        self.balances.set(f, from_balance);
        self.balances.set(t, to_balance);
        Ok(())
    }

    /// Performs all legs in order as one unit: either every leg takes effect, or,
    /// at the first refused leg, none does.
    pub fn apply(&mut self, legs: &Vec<Leg>) -> (r: Result<(), EscrowError>)
        requires
            old(self).wf(),
        ensures
            final(self).wf(),
            match apply_legs(old(self)@, legs@) {
                Ok(b) => r is Ok && final(self)@ == b,
                Err(e) => r == Err::<(), EscrowError>(e) && final(self)@ == old(self)@,
            },
    {
        let mut work = Ledger { balances: self.balances.clone() };
        assert(work@ =~= self@);
        assert(legs@.subrange(0, legs@.len() as int) =~= legs@);
        let mut i: usize = 0;
        while i < legs.len()
            invariant
                0 <= i <= legs.len(),
                work.wf(),
                self.wf(),
                apply_legs(self@, legs@) == apply_legs(work@, legs@.subrange(i as int, legs@.len() as int)),
            decreases legs.len() - i,
        {
            proof {
                let rest = legs@.subrange(i as int, legs@.len() as int);
                assert(rest[0] == legs@[i as int]);
                assert(rest.drop_first() =~= legs@.subrange(i + 1, legs@.len() as int));
            }
            match work.transfer(&legs[i]) {
                Ok(()) => {},
                Err(e) => {
                    return Err(e);
                },
            }
            i = i + 1;
        }
        assert(legs@.subrange(i as int, legs@.len() as int).len() == 0);
        *self = work;
        Ok(())
    }
}

/// A leg that the transfer service accepts and that stays within one asset kind
/// leaves the supply of each asset kind as it was.
pub proof fn lemma_step_conserves(b: Seq<u64>, leg: Leg)
    requires
        b.len() == HOLDINGS,
        leg.keeps_asset_kind(),
        step(b, leg) is Ok,
    ensures
        initializer_asset_supply(step(b, leg)->Ok_0) == initializer_asset_supply(b),
        receiver_asset_supply(step(b, leg)->Ok_0) == receiver_asset_supply(b),
        step(b, leg)->Ok_0.len() == HOLDINGS,
{
}

/// Legs that the transfer service all accepts, each within one asset kind, leave
/// the supply of each asset kind as it was: value moves, none is made or lost.
pub proof fn lemma_legs_conserve(b: Seq<u64>, legs: Seq<Leg>)
    requires
        b.len() == HOLDINGS,
        forall|i: int| 0 <= i < legs.len() ==> (#[trigger] legs[i]).keeps_asset_kind(),
        apply_legs(b, legs) is Ok,
    ensures
        initializer_asset_supply(apply_legs(b, legs)->Ok_0) == initializer_asset_supply(b),
        receiver_asset_supply(apply_legs(b, legs)->Ok_0) == receiver_asset_supply(b),
        apply_legs(b, legs)->Ok_0.len() == HOLDINGS,
    decreases legs.len(),
{
    if legs.len() > 0 {
        lemma_step_conserves(b, legs[0]);
        let b2 = step(b, legs[0])->Ok_0;
        assert forall|i: int| 0 <= i < legs.drop_first().len() implies (
        #[trigger] legs.drop_first()[i]).keeps_asset_kind() by {
            assert(legs.drop_first()[i] == legs[i + 1]);
        }
        lemma_legs_conserve(b2, legs.drop_first());
    }
}

} // verus!
