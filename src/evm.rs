use vstd::prelude::*;
use crate::types::{Address, H256, Word};

verus! {

/// What an execution engine offers to the middleware: state queries, raw
/// calls and deployments, and whole-state snapshots.
///
/// An engine's state is described by `view`, and every query and execution
/// is a function of that state and of its arguments: running the same
/// request on the same state gives the same result.
pub trait VmShow: Sized {
    /// A complete copy of the engine's state.
    type State;
    /// The mathematical description of the engine's state.
    type Model;
    /// The engine's account of how an execution ended.
    type Exit;
    /// A failure inside the engine.
    type Error;

    spec fn view(&self) -> Self::Model;

    /// The state that a snapshot holds.
    spec fn snapshot_view(st: Self::State) -> Self::Model;

    spec fn spec_gas_price(st: Self::Model) -> Word;

    spec fn spec_block_number(st: Self::Model) -> u64;

    spec fn spec_chain_id(st: Self::Model) -> Word;

    spec fn spec_balance(st: Self::Model, addr: Address) -> Word;

    spec fn spec_gas_limit(st: Self::Model) -> Word;

    spec fn spec_block_hash(st: Self::Model, num: u64) -> H256;

    spec fn spec_code(st: Self::Model, addr: Address) -> Seq<u8>;

    spec fn spec_is_success(exit: Self::Exit) -> bool;

    /// Result of a raw call: return bytes, exit, gas used and the state after.
    spec fn spec_call(
        st: Self::Model,
        from: Address,
        to: Address,
        data: Seq<u8>,
        value: Word,
        is_static: bool,
    ) -> Result<(Seq<u8>, Self::Exit, u64, Self::Model), Self::Error>;

    /// Result of a deployment: new address, exit, gas used and the state after.
    spec fn spec_deploy(st: Self::Model, from: Address, code: Seq<u8>, value: Word) -> Result<
        (Address, Self::Exit, u64, Self::Model),
        Self::Error,
    >;

    fn gas_price(&self) -> (r: Word)
        ensures
            r == Self::spec_gas_price(self.view()),
    ;

    fn block_number(&self) -> (r: u64)
        ensures
            r == Self::spec_block_number(self.view()),
    ;

    fn chain_id(&self) -> (r: Word)
        ensures
            r == Self::spec_chain_id(self.view()),
    ;

    fn balance(&self, addr: Address) -> (r: Word)
        ensures
            r == Self::spec_balance(self.view(), addr),
    ;

    fn gas_limit(&self) -> (r: Word)
        ensures
            r == Self::spec_gas_limit(self.view()),
    ;

    fn block_hash(&self, num: u64) -> (r: H256)
        ensures
            r == Self::spec_block_hash(self.view(), num),
    ;

    fn code(&self, addr: Address) -> (r: Vec<u8>)
        ensures
            r@ == Self::spec_code(self.view(), addr),
    ;

    fn is_success(exit: &Self::Exit) -> (r: bool)
        ensures
            r == Self::spec_is_success(*exit),
    ;

    /// Takes a snapshot of the whole state.
    fn state(&self) -> (r: Self::State)
        ensures
            Self::snapshot_view(r) == self.view(),
    ;

    /// Puts the engine back into a snapshot's state.
    fn reset(&mut self, st: Self::State)
        ensures
            final(self).view() == Self::snapshot_view(st),
    ;

    fn call_raw(
        &mut self,
        from: Address,
        to: Address,
        data: Vec<u8>,
        value: Word,
        is_static: bool,
    ) -> (r: Result<(Vec<u8>, Self::Exit, u64, Vec<String>), Self::Error>)
        ensures
            ({
                let s = Self::spec_call(old(self).view(), from, to, data@, value, is_static);
                &&& r is Ok <==> s is Ok
                &&& r is Ok ==> {
                    &&& r->Ok_0.0@ == s->Ok_0.0
                    &&& r->Ok_0.1 == s->Ok_0.1
                    &&& r->Ok_0.2 == s->Ok_0.2
                    &&& final(self).view() == s->Ok_0.3
                }
                &&& r is Err ==> r->Err_0 == s->Err_0
            }),
    ;

    fn deploy(&mut self, from: Address, code: Vec<u8>, value: Word) -> (r: Result<
        (Address, Self::Exit, u64, Vec<String>),
        Self::Error,
    >)
        ensures
            ({
                let s = Self::spec_deploy(old(self).view(), from, code@, value);
                &&& r is Ok <==> s is Ok
                &&& r is Ok ==> {
                    &&& r->Ok_0.0 == s->Ok_0.0
                    &&& r->Ok_0.1 == s->Ok_0.1
                    &&& r->Ok_0.2 == s->Ok_0.2
                    &&& final(self).view() == s->Ok_0.3
                }
                &&& r is Err ==> r->Err_0 == s->Err_0
            }),
    ;
}

} // verus!
