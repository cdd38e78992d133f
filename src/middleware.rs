use vstd::prelude::*;
use crate::evm::VmShow;
use crate::forge::{
    ExecError, Forge, TxOutput, spec_data, spec_from, spec_value,
};
use crate::types::{Address, BlockId, H256, NameOrAddress, TypedTx, Word};

verus! {

/// Where a query is answered.
#[derive(Clone, Debug)]
pub enum Routed<T> {
    /// Answered from the engine's state.
    Local(T),
    /// To be delegated unchanged to the remote collaborator.
    Remote,
    /// The engine can answer once this name is resolved to an address.
    Resolve(String),
}

/// The fields of a block that the engine's state determines.
#[derive(Clone, Copy, Debug)]
pub struct PartialBlock {
    pub number: u64,
    pub hash: H256,
    pub parent_hash: H256,
}

/// The fields of a receipt that a local execution determines; every other
/// field of a receipt stays at its default.
#[derive(Clone, Copy, Debug)]
pub struct Receipt {
    pub transaction_hash: H256,
    pub gas_used: u64,
    pub status: u64,
    pub contract_address: Option<Address>,
}

pub open spec fn spec_receipt(output: TxOutput, gas: u64, success: bool, hash: H256) -> Receipt {
    Receipt {
        transaction_hash: hash,
        gas_used: gas,
        status: if success {
            1
        } else {
            0
        },
        contract_address: match output {
            TxOutput::CreateRes(a) => Some(a),
            TxOutput::CallRes(_) => None,
        },
    }
}

/// Builds the receipt of a local execution: the gas it used, status 1 on
/// success and 0 otherwise, the deployed address on the create path, and
/// `hash` as the transaction's identity.
pub fn synth_receipt(output: &TxOutput, gas: u64, success: bool, hash: H256) -> (r: Receipt)
    ensures
        r == spec_receipt(*output, gas, success, hash),
{
    Receipt {
        transaction_hash: hash,
        gas_used: gas,
        status: if success {
            1
        } else {
            0
        },
        contract_address: output.maybe_addr(),
    }
}

/// The receipt (or error) that submitting `tx` to state `st` gives, leaving
/// state `after`.
pub open spec fn send_post<E: VmShow>(
    st: E::Model,
    tx: TypedTx,
    hash: H256,
    r: Result<Receipt, ExecError<E::Error>>,
    after: E::Model,
) -> bool {
    match tx.to {
        Some(NameOrAddress::Name(n)) => {
            &&& r == Err::<Receipt, ExecError<E::Error>>(ExecError::Unresolved(n))
            &&& after == st
        },
        Some(NameOrAddress::Address(to)) => match E::spec_call(
            st,
            spec_from(tx),
            to,
            spec_data(tx),
            spec_value(tx),
            false,
        ) {
            Ok(t) => {
                &&& r is Ok
                &&& r->Ok_0.transaction_hash == hash
                &&& r->Ok_0.gas_used == t.2
                &&& r->Ok_0.status == if E::spec_is_success(t.1) { 1u64 } else { 0u64 }
                &&& r->Ok_0.contract_address is None
                &&& after == t.3
            },
            Err(e) => r == Err::<Receipt, ExecError<E::Error>>(ExecError::Evm(e)),
        },
        None => match E::spec_deploy(st, spec_from(tx), spec_data(tx), spec_value(tx)) {
            Ok(t) => {
                &&& r is Ok
                &&& r->Ok_0.transaction_hash == hash
                &&& r->Ok_0.gas_used == t.2
                &&& r->Ok_0.status == if E::spec_is_success(t.1) { 1u64 } else { 0u64 }
                &&& r->Ok_0.contract_address == Some(t.0)
                &&& after == t.3
            },
            Err(e) => r == Err::<Receipt, ExecError<E::Error>>(ExecError::Evm(e)),
        },
    }
}

/// The bytes (or error) that a read-only call of `tx` on state `st` gives.
pub open spec fn spec_call_result<E: VmShow>(st: E::Model, tx: TypedTx) -> Result<
    Seq<u8>,
    ExecError<E::Error>,
> {
    match tx.to {
        Some(NameOrAddress::Name(n)) => Err(ExecError::Unresolved(n)),
        Some(NameOrAddress::Address(to)) => match E::spec_call(
            st,
            spec_from(tx),
            to,
            spec_data(tx),
            spec_value(tx),
            false,
        ) {
            Ok(t) => Ok(t.0),
            Err(e) => Err(ExecError::Evm(e)),
        },
        None => match E::spec_deploy(st, spec_from(tx), spec_data(tx), spec_value(tx)) {
            Ok(t) => Ok(E::spec_code(t.3, t.0)),
            Err(e) => Err(ExecError::Evm(e)),
        },
    }
}

/// `r` is what a read-only call of `tx` on `before` gives, and `after` is
/// `before` again.
pub open spec fn call_post<M, E: VmShow>(
    before: Forge<M, E>,
    tx: TypedTx,
    r: Result<Vec<u8>, ExecError<E::Error>>,
    after: Forge<M, E>,
) -> bool {
    let s = spec_call_result::<E>(before.vm.view(), tx);
    &&& after.vm.view() == before.vm.view()
    &&& after.inner == before.inner
    &&& r is Ok <==> s is Ok
    &&& r is Ok ==> r->Ok_0@ == s->Ok_0
    &&& r is Err ==> r->Err_0 == s->Err_0
}

impl<M, E: VmShow> Forge<M, E> {
    /// Whether a request for `block` is answered from the engine: no block
    /// given means the head.
    pub open spec fn spec_local(&self, block: Option<BlockId>) -> bool {
        match block {
            None => true,
            Some(id) => self.spec_latest(id),
        }
    }

    pub fn is_local(&self, block: &Option<BlockId>) -> (r: bool)
        ensures
            r == self.spec_local(*block),
    {
        match block {
            None => true,
            Some(id) => self.is_latest(id),
        }
    }

    pub fn get_chainid(&self) -> (r: Word)
        ensures
            r == E::spec_chain_id(self.vm.view()),
    {
        self.vm.chain_id()
    }

    pub fn get_block_number(&self) -> (r: u64)
        ensures
            r == self.head(),
    {
        self.vm.block_number()
    }

    /// The gas price for a request at `block`.
    pub fn get_gas_price(&self, block: &Option<BlockId>) -> (r: Routed<Word>)
        ensures
            self.spec_local(*block) ==> r == Routed::Local(E::spec_gas_price(self.vm.view())),
            !self.spec_local(*block) ==> r is Remote,
    {
        if self.is_local(block) {
            Routed::Local(self.vm.gas_price())
        } else {
            Routed::Remote
        }
    }

    /// The gas estimate for a request at `block`: the engine's block gas
    /// limit at the head.
    pub fn estimate_gas(&self, block: &Option<BlockId>) -> (r: Routed<Word>)
        ensures
            self.spec_local(*block) ==> r == Routed::Local(E::spec_gas_limit(self.vm.view())),
            !self.spec_local(*block) ==> r is Remote,
    {
        if self.is_local(block) {
            Routed::Local(self.vm.gas_limit())
        } else {
            Routed::Remote
        }
    }

    /// The balance of `who` at `block`.
    pub fn get_balance(&self, who: &NameOrAddress, block: &Option<BlockId>) -> (r: Routed<Word>)
        ensures
            !self.spec_local(*block) ==> r is Remote,
            self.spec_local(*block) ==> match *who {
                NameOrAddress::Address(a) => r == Routed::Local(
                    E::spec_balance(self.vm.view(), a),
                ),
                NameOrAddress::Name(n) => r == Routed::<Word>::Resolve(n),
            },
    {
        if self.is_local(block) {
            match who {
                NameOrAddress::Address(a) => Routed::Local(self.vm.balance(*a)),
                NameOrAddress::Name(n) => Routed::Resolve(n.clone()),
            }
        } else {
            Routed::Remote
        }
    }

    /// The block `id` as far as the engine knows it: its number, its hash
    /// and its parent's hash (zero for the first block). `None` when the
    /// engine has produced no block yet.
    pub fn get_block(&self, id: &BlockId) -> (r: Routed<Option<PartialBlock>>)
        ensures
            !self.spec_latest(*id) ==> r is Remote,
            self.spec_latest(*id) && self.head() == 0 ==> r == Routed::Local(
                None::<PartialBlock>,
            ),
            self.spec_latest(*id) && self.head() >= 1 ==> {
                let num = (self.head() - 1) as u64;
                &&& r is Local
                &&& r->Local_0 is Some
                &&& r->Local_0->Some_0.number == num
                &&& r->Local_0->Some_0.hash == E::spec_block_hash(self.vm.view(), num)
                &&& num >= 1 ==> r->Local_0->Some_0.parent_hash == E::spec_block_hash(
                    self.vm.view(),
                    (num - 1) as u64,
                )
                &&& num == 0 ==> r->Local_0->Some_0.parent_hash@ == Seq::new(32, |i: int| 0u8)
            },
    {
        if !self.is_latest(id) {
            return Routed::Remote;
        }
        let head = self.vm.block_number();
        if head == 0 {
            return Routed::Local(None);
        }
        let num = head - 1;
        let hash = self.vm.block_hash(num);
        let parent_hash = if num >= 1 {
            self.vm.block_hash(num - 1)
        } else {
            let z: H256 = [0u8; 32];
            assert(z@ =~= Seq::new(32, |i: int| 0u8));
            z
        };
        Routed::Local(Some(PartialBlock { number: num, hash, parent_hash }))
    }

    /// Executes `tx` on the engine and returns its receipt, with `hash` as
    /// the transaction's identity.
    pub fn send_transaction(&mut self, tx: &TypedTx, hash: H256) -> (r: Result<
        Receipt,
        ExecError<E::Error>,
    >)
        ensures
            final(self).inner == old(self).inner,
            send_post::<E>(old(self).vm.view(), *tx, hash, r, final(self).vm.view()),
    {
        let res = self.apply_tx(tx);
        match res {
            Ok(res) => {
                let success = E::is_success(&res.exit);
                Ok(synth_receipt(&res.output, res.gas, success, hash))
            },
            Err(e) => Err(e),
        }
    }

    /// Answers a read-only call: runs `tx` on the engine, takes its return
    /// bytes (on the create path, the code now at the new address), and puts
    /// the engine back into the state it had before, whatever happened.
    pub fn call(&mut self, tx: &TypedTx) -> (r: Result<Vec<u8>, ExecError<E::Error>>)
        ensures
            call_post(*old(self), *tx, r, *final(self)),
    {
        let snapshot = self.vm.state();
        let res = self.apply_tx(tx);
        let out = match res {
            Ok(res) => match res.output {
                TxOutput::CallRes(bytes) => Ok(bytes),
                TxOutput::CreateRes(addr) => Ok(self.vm.code(addr)),
            },
            Err(e) => Err(e),
        };
        self.vm.reset(snapshot);
        out
    }

    /// A read-only call at `block`: simulated on the engine when `block` is
    /// its head, otherwise left to the remote collaborator with the engine
    /// untouched.
    pub fn call_at(&mut self, tx: &TypedTx, block: &Option<BlockId>) -> (r: Routed<
        Result<Vec<u8>, ExecError<E::Error>>,
    >)
        ensures
            !old(self).spec_local(*block) ==> r is Remote && final(self).vm.view() == old(
                self,
            ).vm.view() && final(self).inner == old(self).inner,
            old(self).spec_local(*block) ==> r is Local && call_post(
                *old(self),
                *tx,
                r->Local_0,
                *final(self),
            ),
    {
        if self.is_local(block) {
            Routed::Local(self.call(tx))
        } else {
            Routed::Remote
        }
    }
}

} // verus!
