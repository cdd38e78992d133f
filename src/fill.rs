use vstd::prelude::*;
use crate::evm::VmShow;
use crate::forge::Forge;
use crate::middleware::Routed;
use crate::types::{AccessListItem, Address, BlockId, NameOrAddress, TxKind, TypedTx, Word};

verus! {

/// Sets the sender from `default_sender` when the transaction has none.
pub fn fill_sender(tx: &mut TypedTx, default_sender: Option<Address>)
    ensures
        old(tx).from is None && default_sender is Some ==> *final(tx) == (TypedTx {
            from: default_sender,
            ..*old(tx)
        }),
        !(old(tx).from is None && default_sender is Some) ==> *final(tx) == *old(tx),
{
    if tx.from.is_none() {
        if let Some(d) = default_sender {
            tx.from = Some(d);
        }
    }
}

/// The name the destination still has to be resolved from, if any.
pub fn name_to_resolve(tx: &TypedTx) -> (r: Option<String>)
    ensures
        r == match tx.to {
            Some(NameOrAddress::Name(n)) => Some(n),
            _ => None,
        },
{
    match &tx.to {
        Some(NameOrAddress::Name(n)) => Some(n.clone()),
        _ => None,
    }
}

pub open spec fn spec_resolved(tx: TypedTx, addr: Address) -> TypedTx {
    if tx.to matches Some(NameOrAddress::Name(_)) {
        TypedTx { to: Some(NameOrAddress::Address(addr)), ..tx }
    } else {
        tx
    }
}

/// Replaces a destination name by the address it resolved to.
pub fn set_resolved(tx: &mut TypedTx, addr: Address)
    ensures
        *final(tx) == spec_resolved(*old(tx), addr),
        old(tx).to matches Some(NameOrAddress::Name(_)) ==> *final(tx) == (TypedTx {
            to: Some(NameOrAddress::Address(addr)),
            ..*old(tx)
        }),
        !(old(tx).to matches Some(NameOrAddress::Name(_))) ==> *final(tx) == *old(tx),
{
    if let Some(NameOrAddress::Name(_)) = &tx.to {
        tx.to = Some(NameOrAddress::Address(addr));
    }
}

/// Whether the transaction's scheme carries an access list and it has none yet.
pub open spec fn spec_wants_access_list(tx: TypedTx) -> bool {
    tx.kind != TxKind::Legacy && tx.access_list@.len() == 0
}

pub fn wants_access_list(tx: &TypedTx) -> (r: bool)
    ensures
        r == spec_wants_access_list(*tx),
{
    tx.kind != TxKind::Legacy && tx.access_list.len() == 0
}

/// Whether an offered access list with gas `offered` replaces the plain
/// estimate `gas`: only when the transaction wants one and the figure is
/// strictly lower.
pub open spec fn spec_adopts(tx: TypedTx, gas: Word, offer: Option<(Vec<AccessListItem>, Word)>) -> bool {
    &&& spec_wants_access_list(tx)
    &&& offer is Some
    &&& offer->Some_0.1.value() < gas.value()
}

pub open spec fn spec_adopted(
    tx: TypedTx,
    gas: Word,
    offer: Option<(Vec<AccessListItem>, Word)>,
) -> TypedTx {
    if spec_adopts(tx, gas, offer) {
        TypedTx { access_list: offer->Some_0.0, gas: Some(offer->Some_0.1), ..tx }
    } else {
        TypedTx { gas: Some(gas), ..tx }
    }
}

/// Settles the gas limit: the offered access list and its gas figure when
/// that figure is strictly below the plain estimate `gas`, else `gas` and the
/// access list as it was. `offer` is `None` when no access list could be
/// computed.
pub fn adopt_access_list(
    tx: &mut TypedTx,
    gas: Word,
    offer: Option<(Vec<AccessListItem>, Word)>,
)
    ensures
        spec_adopts(*old(tx), gas, offer) ==> *final(tx) == (TypedTx {
            access_list: offer->Some_0.0,
            gas: Some(offer->Some_0.1),
            ..*old(tx)
        }),
        !spec_adopts(*old(tx), gas, offer) ==> *final(tx) == (TypedTx {
            gas: Some(gas),
            ..*old(tx)
        }),
{
    let wants = wants_access_list(tx);
    match offer {
        Some((list, al_gas)) => {
            if wants && al_gas.lt(&gas) {
                tx.access_list = list;
                tx.gas = Some(al_gas);
            } else {
                tx.gas = Some(gas);
            }
        },
        None => {
            tx.gas = Some(gas);
        },
    }
}

/// Which fee fields still have to be computed.
#[derive(Clone, Copy, Debug, PartialEq, Eq, Structural)]
pub enum FeeNeed {
    Nothing,
    /// A gas price, for the legacy and access-list schemes.
    GasPrice,
    /// Both fee-market fields, from a fee estimate.
    MarketFees,
}

pub open spec fn spec_fee_need(tx: TypedTx) -> FeeNeed {
    match tx.kind {
        TxKind::Eip1559 => if tx.max_fee_per_gas is None || tx.max_priority_fee_per_gas is None {
            FeeNeed::MarketFees
        } else {
            FeeNeed::Nothing
        },
        _ => if tx.gas_price is None {
            FeeNeed::GasPrice
        } else {
            FeeNeed::Nothing
        },
    }
}

pub fn fee_need(tx: &TypedTx) -> (r: FeeNeed)
    ensures
        r == spec_fee_need(*tx),
{
    match tx.kind {
        TxKind::Eip1559 => if tx.max_fee_per_gas.is_none() || tx.max_priority_fee_per_gas.is_none() {
            FeeNeed::MarketFees
        } else {
            FeeNeed::Nothing
        },
        _ => if tx.gas_price.is_none() {
            FeeNeed::GasPrice
        } else {
            FeeNeed::Nothing
        },
    }
}

pub fn set_gas_price(tx: &mut TypedTx, price: Word)
    ensures
        *final(tx) == (TypedTx { gas_price: Some(price), ..*old(tx) }),
{
    tx.gas_price = Some(price);
}

/// Sets both fee-market fields together.
pub fn set_market_fees(tx: &mut TypedTx, max_fee: Word, max_priority_fee: Word)
    ensures
        *final(tx) == (TypedTx {
            max_fee_per_gas: Some(max_fee),
            max_priority_fee_per_gas: Some(max_priority_fee),
            ..*old(tx)
        }),
{
    tx.max_fee_per_gas = Some(max_fee);
    tx.max_priority_fee_per_gas = Some(max_priority_fee);
}

impl<M, E: VmShow> Forge<M, E> {
    /// The gas limit before any access list: the transaction's own, else the
    /// estimate for `block`.
    pub fn plain_gas(&self, tx: &TypedTx, block: &Option<BlockId>) -> (r: Routed<Word>)
        ensures
            tx.gas is Some ==> r == Routed::Local(tx.gas->Some_0),
            tx.gas is None && self.spec_local(*block) ==> r == Routed::Local(
                E::spec_gas_limit(self.vm.view()),
            ),
            tx.gas is None && !self.spec_local(*block) ==> r is Remote,
    {
        match tx.gas {
            Some(g) => Routed::Local(g),
            None => self.estimate_gas(block),
        }
    }

    /// Fills the gas price of a legacy or access-list transaction that has
    /// none, from the engine when `block` is its head. Returns whether the
    /// transaction still waits for a remote gas price.
    pub fn fill_gas_price(&self, tx: &mut TypedTx, block: &Option<BlockId>) -> (r: bool)
        ensures
            spec_fee_need(*old(tx)) == FeeNeed::GasPrice && self.spec_local(*block) ==> {
                &&& !r
                &&& *final(tx) == (TypedTx {
                    gas_price: Some(E::spec_gas_price(self.vm.view())),
                    ..*old(tx)
                })
            },
            spec_fee_need(*old(tx)) == FeeNeed::GasPrice && !self.spec_local(*block) ==> {
                &&& r
                &&& *final(tx) == *old(tx)
            },
            spec_fee_need(*old(tx)) != FeeNeed::GasPrice ==> !r && *final(tx) == *old(tx),
    {
        if fee_need(tx) != FeeNeed::GasPrice {
            return false;
        }
        match self.get_gas_price(block) {
            Routed::Local(p) => {
                set_gas_price(tx, p);
                false
            },
            _ => true,
        }
    }
}


/// Where filling a transaction stands. Filling goes through the stages in
/// this order: destination name, gas limit, access list, gas price, market
/// fees.
#[derive(Clone, Copy, Debug, PartialEq, Eq, Structural)]
pub enum FillStage {
    Name,
    Gas,
    AccessList,
    GasPrice,
    Fees,
    Done,
}

pub open spec fn stage_rank(s: FillStage) -> nat {
    match s {
        FillStage::Name => 5,
        FillStage::Gas => 4,
        FillStage::AccessList => 3,
        FillStage::GasPrice => 2,
        FillStage::Fees => 1,
        FillStage::Done => 0,
    }
}

/// The outside work filling waits for.
#[derive(Clone, Debug)]
pub enum FillAction {
    /// Resolve this destination name.
    ResolveName(String),
    /// Ask the remote collaborator for a gas estimate.
    EstimateGas,
    /// Compute an access list and its gas figure.
    CreateAccessList,
    /// Ask the remote collaborator for the gas price.
    GetGasPrice,
    /// Estimate both fee-market fields.
    EstimateFees,
    /// Every field is filled.
    Done,
}

/// The answer to a `FillAction`.
#[derive(Clone, Debug)]
pub enum FillEvent {
    Resolved(Address),
    GasEstimate(Word),
    /// `None` when no access list could be computed.
    AccessList(Option<(Vec<AccessListItem>, Word)>),
    GasPrice(Word),
    Fees(Word, Word),
}

/// Progress of filling one transaction: the stage, and the plain gas
/// estimate once it is known.
#[derive(Clone, Copy, Debug)]
pub struct Filler {
    pub stage: FillStage,
    pub gas: Word,
}

impl Filler {
    pub fn new() -> (r: Filler)
        ensures
            r.stage == FillStage::Name,
    {
        Filler { stage: FillStage::Name, gas: Word::zero() }
    }
}

/// What an answer does to a filler waiting at its stage: the new stage, the
/// plain gas estimate and the transaction. `None` when the answer does not
/// belong to the stage.
pub open spec fn spec_answer(f: Filler, tx: TypedTx, ev: FillEvent) -> Option<(Filler, TypedTx)> {
    match (f.stage, ev) {
        (FillStage::Name, FillEvent::Resolved(a)) => Some(
            (Filler { stage: FillStage::Gas, ..f }, spec_resolved(tx, a)),
        ),
        (FillStage::Gas, FillEvent::GasEstimate(g)) => Some(
            (Filler { stage: FillStage::AccessList, gas: g }, tx),
        ),
        (FillStage::AccessList, FillEvent::AccessList(offer)) => Some(
            (Filler { stage: FillStage::GasPrice, ..f }, spec_adopted(tx, f.gas, offer)),
        ),
        (FillStage::GasPrice, FillEvent::GasPrice(p)) => Some(
            (Filler { stage: FillStage::Fees, ..f }, TypedTx { gas_price: Some(p), ..tx }),
        ),
        (FillStage::Fees, FillEvent::Fees(a, b)) => Some(
            (
                Filler { stage: FillStage::Done, ..f },
                TypedTx { max_fee_per_gas: Some(a), max_priority_fee_per_gas: Some(b), ..tx },
            ),
        ),
        _ => None,
    }
}

/// Applies an outside answer to the stage that waits for it. Returns false,
/// and changes nothing, when the answer belongs to another stage.
pub fn fill_answer(f: &mut Filler, tx: &mut TypedTx, ev: FillEvent) -> (r: bool)
    ensures
        r == spec_answer(*old(f), *old(tx), ev) is Some,
        r ==> (*final(f), *final(tx)) == spec_answer(*old(f), *old(tx), ev)->Some_0,
        !r ==> *final(f) == *old(f) && *final(tx) == *old(tx),
{
    match (f.stage, ev) {
        (FillStage::Name, FillEvent::Resolved(a)) => {
            set_resolved(tx, a);
            f.stage = FillStage::Gas;
            true
        },
        (FillStage::Gas, FillEvent::GasEstimate(g)) => {
            f.gas = g;
            f.stage = FillStage::AccessList;
            true
        },
        (FillStage::AccessList, FillEvent::AccessList(offer)) => {
            adopt_access_list(tx, f.gas, offer);
            f.stage = FillStage::GasPrice;
            true
        },
        (FillStage::GasPrice, FillEvent::GasPrice(p)) => {
            set_gas_price(tx, p);
            f.stage = FillStage::Fees;
            true
        },
        (FillStage::Fees, FillEvent::Fees(a, b)) => {
            set_market_fees(tx, a, b);
            f.stage = FillStage::Done;
            true
        },
        _ => false,
    }
}

impl<M, E: VmShow> Forge<M, E> {
    /// Where filling goes from stage `stage` with plain estimate `gas`, doing
    /// every step the engine can answer: the stage it stops at, the estimate,
    /// the transaction, and the outside work it then waits for.
    pub open spec fn spec_advance(
        &self,
        stage: FillStage,
        gas: Word,
        tx: TypedTx,
        block: Option<BlockId>,
    ) -> (FillStage, Word, TypedTx, FillAction)
        decreases stage_rank(stage),
    {
        match stage {
            FillStage::Name => match tx.to {
                Some(NameOrAddress::Name(n)) => (stage, gas, tx, FillAction::ResolveName(n)),
                _ => self.spec_advance(FillStage::Gas, gas, tx, block),
            },
            FillStage::Gas => match tx.gas {
                Some(g) => self.spec_advance(FillStage::AccessList, g, tx, block),
                None => if self.spec_local(block) {
                    self.spec_advance(
                        FillStage::AccessList,
                        E::spec_gas_limit(self.vm.view()),
                        tx,
                        block,
                    )
                } else {
                    (stage, gas, tx, FillAction::EstimateGas)
                },
            },
            FillStage::AccessList => if spec_wants_access_list(tx) {
                (stage, gas, tx, FillAction::CreateAccessList)
            } else {
                self.spec_advance(FillStage::GasPrice, gas, spec_adopted(tx, gas, None), block)
            },
            FillStage::GasPrice => if spec_fee_need(tx) == FeeNeed::GasPrice {
                if self.spec_local(block) {
                    self.spec_advance(
                        FillStage::Fees,
                        gas,
                        TypedTx { gas_price: Some(E::spec_gas_price(self.vm.view())), ..tx },
                        block,
                    )
                } else {
                    (stage, gas, tx, FillAction::GetGasPrice)
                }
            } else {
                self.spec_advance(FillStage::Fees, gas, tx, block)
            },
            FillStage::Fees => if spec_fee_need(tx) == FeeNeed::MarketFees {
                (stage, gas, tx, FillAction::EstimateFees)
            } else {
                (FillStage::Done, gas, tx, FillAction::Done)
            },
            FillStage::Done => (stage, gas, tx, FillAction::Done),
        }
    }

    /// Fills what the engine can, from the filler's stage on, and says what
    /// outside work is needed next (or that the transaction is filled).
    pub fn fill_advance(&self, f: &mut Filler, tx: &mut TypedTx, block: &Option<BlockId>) -> (r:
        FillAction)
        ensures
            (final(f).stage, final(f).gas, *final(tx), r) == self.spec_advance(
                old(f).stage,
                old(f).gas,
                *old(tx),
                *block,
            ),
    {
        loop
            invariant
                self.spec_advance(f.stage, f.gas, *tx, *block) == self.spec_advance(
                    old(f).stage,
                    old(f).gas,
                    *old(tx),
                    *block,
                ),
            decreases stage_rank(f.stage),
        {
            match f.stage {
                FillStage::Name => {
                    match name_to_resolve(tx) {
                        Some(n) => {
                            return FillAction::ResolveName(n);
                        },
                        None => {
                            f.stage = FillStage::Gas;
                        },
                    }
                },
                FillStage::Gas => {
                    match self.plain_gas(tx, block) {
                        Routed::Local(g) => {
                            f.gas = g;
                            f.stage = FillStage::AccessList;
                        },
                        _ => {
                            return FillAction::EstimateGas;
                        },
                    }
                },
                FillStage::AccessList => {
                    if wants_access_list(tx) {
                        return FillAction::CreateAccessList;
                    }
                    adopt_access_list(tx, f.gas, None);
                    f.stage = FillStage::GasPrice;
                },
                FillStage::GasPrice => {
                    if self.fill_gas_price(tx, block) {
                        return FillAction::GetGasPrice;
                    }
                    f.stage = FillStage::Fees;
                },
                FillStage::Fees => {
                    if fee_need(tx) == FeeNeed::MarketFees {
                        return FillAction::EstimateFees;
                    }
                    f.stage = FillStage::Done;
                    return FillAction::Done;
                },
                FillStage::Done => {
                    return FillAction::Done;
                },
            }
        }
    }
}

} // verus!
