use vstd::prelude::*;
use crate::evm::VmShow;
use crate::types::{Address, BlockId, BlockNumber, H256, NameOrAddress, TypedTx, Word};

verus! {

/// The bytes of the sender used when a transaction names none.
pub open spec fn default_sender_bytes() -> Seq<u8> {
    seq![
        0xD3u8, 0xD1u8, 0x3Au8, 0x57u8, 0x8Au8, 0x53u8, 0x68u8, 0x5Bu8, 0x4Au8, 0xC3u8,
        0x6Au8, 0x1Bu8, 0xABu8, 0x31u8, 0x91u8, 0x2Du8, 0x2Bu8, 0x2Au8, 0x2Fu8, 0x36u8,
    ]
}

pub open spec fn spec_default_sender() -> Address {
    choose|a: Address| a@ == default_sender_bytes()
}

/// The fixed sender address 0xD3D13a578a53685B4ac36A1Bab31912D2B2A2F36.
pub fn default_sender() -> (r: Address)
    ensures
        r == spec_default_sender(),
        r@ == default_sender_bytes(),
{
    let r: Address = [
        0xD3u8, 0xD1u8, 0x3Au8, 0x57u8, 0x8Au8, 0x53u8, 0x68u8, 0x5Bu8, 0x4Au8, 0xC3u8,
        0x6Au8, 0x1Bu8, 0xABu8, 0x31u8, 0x91u8, 0x2Du8, 0x2Bu8, 0x2Au8, 0x2Fu8, 0x36u8,
    ];
    assert(r@ =~= default_sender_bytes());
    let ghost a = spec_default_sender();
    assert(a@ == default_sender_bytes());
    assert(r =~= a);
    r
}

/// The remote collaborator: either one to delegate to, or a placeholder
/// that must never be reached.
#[derive(Clone, Debug)]
pub enum Inner<T> {
    Use(T),
    Not(T),
}

impl Inner<NoClient> {
    pub fn not() -> (r: Self)
        ensures
            r is Not,
    {
        Inner::Not(NoClient::new())
    }
}

impl<T> Inner<T> {
    pub fn is_not(&self) -> (r: bool)
        ensures
            r == self is Not,
    {
        match self {
            Inner::Not(_) => true,
            _ => false,
        }
    }

    pub fn is_use(&self) -> (r: bool)
        ensures
            r == self is Use,
    {
        match self {
            Inner::Use(_) => true,
            _ => false,
        }
    }

    pub fn get(&self) -> (r: &T)
        ensures
            *r == match *self {
                Inner::Use(x) => x,
                Inner::Not(x) => x,
            },
    {
        match self {
            Inner::Use(x) => x,
            Inner::Not(x) => x,
        }
    }
}

/// The placeholder for a missing remote collaborator.
#[derive(Clone, Copy, Debug, Default)]
pub struct NoClient {}

impl NoClient {
    pub fn new() -> (r: Self) {
        NoClient {  }
    }
}

/// What an execution produced: return bytes on the call path, the new
/// contract's address on the create path.
#[derive(Clone, Debug)]
pub enum TxOutput {
    CallRes(Vec<u8>),
    CreateRes(Address),
}

impl TxOutput {
    pub fn maybe_addr(&self) -> (r: Option<Address>)
        ensures
            r == match *self {
                TxOutput::CreateRes(a) => Some(a),
                TxOutput::CallRes(_) => None,
            },
    {
        match self {
            TxOutput::CreateRes(addr) => Some(*addr),
            _ => None,
        }
    }

    pub fn maybe_bytes(self) -> (r: Option<Vec<u8>>)
        ensures
            r == match self {
                TxOutput::CallRes(b) => Some(b),
                TxOutput::CreateRes(_) => None,
            },
    {
        match self {
            TxOutput::CallRes(bytes) => Some(bytes),
            _ => None,
        }
    }
}

/// The result of applying one transaction to the engine.
pub struct TxRes<Ex> {
    pub output: TxOutput,
    pub exit: Ex,
    pub gas: u64,
    pub logs: Vec<String>,
}

/// Why a transaction could not be applied.
#[derive(Clone, Debug)]
pub enum ExecError<V> {
    /// The destination is a name that has to be resolved first.
    Unresolved(String),
    /// The engine failed.
    Evm(V),
}

pub open spec fn spec_from(tx: TypedTx) -> Address {
    match tx.from {
        Some(a) => a,
        None => spec_default_sender(),
    }
}

pub open spec fn spec_value(tx: TypedTx) -> Word {
    match tx.value {
        Some(v) => v,
        None => Word::spec_zero(),
    }
}

pub open spec fn spec_data(tx: TypedTx) -> Seq<u8> {
    match tx.data {
        Some(d) => d@,
        None => Seq::empty(),
    }
}

/// `r` reports the engine's call result `s` on the call path, and `after` is
/// the state the call left.
pub open spec fn call_matches<E: VmShow>(
    r: Result<TxRes<E::Exit>, ExecError<E::Error>>,
    s: Result<(Seq<u8>, E::Exit, u64, E::Model), E::Error>,
    after: E::Model,
) -> bool {
    match s {
        Ok(t) => {
            &&& r is Ok
            &&& r->Ok_0.output is CallRes
            &&& r->Ok_0.output->CallRes_0@ == t.0
            &&& r->Ok_0.exit == t.1
            &&& r->Ok_0.gas == t.2
            &&& after == t.3
        },
        Err(e) => r == Err::<TxRes<E::Exit>, ExecError<E::Error>>(ExecError::Evm(e)),
    }
}

/// `r` reports the engine's deployment result `s` on the create path, and
/// `after` is the state the deployment left.
pub open spec fn deploy_matches<E: VmShow>(
    r: Result<TxRes<E::Exit>, ExecError<E::Error>>,
    s: Result<(Address, E::Exit, u64, E::Model), E::Error>,
    after: E::Model,
) -> bool {
    match s {
        Ok(t) => {
            &&& r is Ok
            &&& r->Ok_0.output == TxOutput::CreateRes(t.0)
            &&& r->Ok_0.exit == t.1
            &&& r->Ok_0.gas == t.2
            &&& after == t.3
        },
        Err(e) => r == Err::<TxRes<E::Exit>, ExecError<E::Error>>(ExecError::Evm(e)),
    }
}

/// What applying `tx` to state `st` gives, leaving state `after`.
pub open spec fn apply_post<E: VmShow>(
    st: E::Model,
    tx: TypedTx,
    r: Result<TxRes<E::Exit>, ExecError<E::Error>>,
    after: E::Model,
) -> bool {
    match tx.to {
        Some(NameOrAddress::Name(n)) => {
            &&& r == Err::<TxRes<E::Exit>, ExecError<E::Error>>(ExecError::Unresolved(n))
            &&& after == st
        },
        Some(NameOrAddress::Address(to)) => call_matches::<E>(
            r,
            E::spec_call(st, spec_from(tx), to, spec_data(tx), spec_value(tx), false),
            after,
        ),
        None => deploy_matches::<E>(
            r,
            E::spec_deploy(st, spec_from(tx), spec_data(tx), spec_value(tx)),
            after,
        ),
    }
}

pub open spec fn is_empty_hash(h: H256) -> bool {
    forall|i: int| 0 <= i < 32 ==> h@[i] == 0
}

/// Whether `id` names the head state of an engine whose head counter is
/// `head` and whose most recent block has hash `last_hash`.
pub open spec fn spec_is_latest(id: BlockId, head: u64, last_hash: H256) -> bool {
    match id {
        BlockId::Hash(h) => head >= 1 && !is_empty_hash(last_hash) && h@ == last_hash@,
        BlockId::Number(BlockNumber::Latest) => true,
        BlockId::Number(BlockNumber::Pending) => true,
        BlockId::Number(BlockNumber::Number(n)) => head >= 1 && n == head - 1,
        BlockId::Number(BlockNumber::Earliest) => false,
    }
}

pub fn hash_eq(a: &H256, b: &H256) -> (r: bool)
    ensures
        r == (a@ == b@),
{
    let mut i: usize = 0;
    while i < 32
        invariant
            0 <= i <= 32,
            forall|j: int| 0 <= j < i ==> a@[j] == b@[j],
        decreases 32 - i,
    {
        if a[i] != b[i] {
            assert(a@[i as int] != b@[i as int]);
            return false;
        }
        i = i + 1;
    }
    assert(a@ =~= b@);
    true
}

pub fn hash_is_empty(h: &H256) -> (r: bool)
    ensures
        r == is_empty_hash(*h),
{
    let mut i: usize = 0;
    while i < 32
        invariant
            0 <= i <= 32,
            forall|j: int| 0 <= j < i ==> h@[j] == 0,
        decreases 32 - i,
    {
        if h[i] != 0 {
            assert(h@[i as int] != 0);
            return false;
        }
        i = i + 1;
    }
    true
}

/// The routing decision: does `id` refer to the engine's head state?
/// A hash is compared against the most recent block's hash, which counts
/// only when the engine has data for it; "latest" and "pending" are the
/// head; a number is the head when it is one below the head counter.
pub fn block_is_latest(id: &BlockId, head: u64, last_hash: &H256) -> (r: bool)
    ensures
        r == spec_is_latest(*id, head, *last_hash),
{
    match id {
        BlockId::Hash(h) => head >= 1 && !hash_is_empty(last_hash) && hash_eq(h, last_hash),
        BlockId::Number(BlockNumber::Latest) => true,
        BlockId::Number(BlockNumber::Pending) => true,
        BlockId::Number(BlockNumber::Number(n)) => head >= 1 && *n == head - 1,
        BlockId::Number(BlockNumber::Earliest) => false,
    }
}

/// The middleware: an execution engine, and an optional remote
/// collaborator for what the engine cannot answer.
pub struct Forge<M, E> {
    pub vm: E,
    pub inner: Inner<M>,
}

impl<E: VmShow> Forge<NoClient, E> {
    pub fn new(vm: E) -> (r: Self)
        ensures
            r.vm == vm,
            r.inner is Not,
    {
        Forge { vm, inner: Inner::not() }
    }
}

impl<M, E: VmShow> Forge<M, E> {
    pub fn new_with_provider(vm: E, inner: M) -> (r: Self)
        ensures
            r.vm == vm,
            r.inner == Inner::Use(inner),
    {
        Forge { vm, inner: Inner::Use(inner) }
    }

    pub fn vm(&self) -> (r: &E)
        ensures
            *r == self.vm,
    {
        &self.vm
    }

    pub fn vm_mut(&mut self) -> (r: &mut E)
        ensures
            *r == old(self).vm,
            final(self).vm == *final(r),
            final(self).inner == old(self).inner,
    {
        &mut self.vm
    }

    /// The hash the engine reports for block `num`.
    pub fn get_block_hash(&self, num: u64) -> (r: H256)
        ensures
            r == E::spec_block_hash(self.vm.view(), num),
    {
        self.vm.block_hash(num)
    }

    /// The concrete address `id` stands for, or the name to resolve first.
    pub fn to_addr(&self, id: &NameOrAddress) -> (r: Result<Address, String>)
        ensures
            r == match *id {
                NameOrAddress::Address(a) => Ok::<Address, String>(a),
                NameOrAddress::Name(n) => Err(n),
            },
    {
        match id {
            NameOrAddress::Address(a) => Ok(*a),
            NameOrAddress::Name(n) => Err(n.clone()),
        }
    }

    /// The engine's head counter.
    pub open spec fn head(&self) -> u64 {
        E::spec_block_number(self.vm.view())
    }

    /// Whether `id` names the engine's head state.
    pub open spec fn spec_latest(&self, id: BlockId) -> bool {
        spec_is_latest(
            id,
            self.head(),
            E::spec_block_hash(self.vm.view(), (self.head() - 1) as u64),
        )
    }

    pub fn is_latest(&self, id: &BlockId) -> (r: bool)
        ensures
            r == self.spec_latest(*id),
    {
        let head = self.vm.block_number();
        if head >= 1 {
            let last = self.vm.block_hash(head - 1);
            block_is_latest(id, head, &last)
        } else {
            let none: H256 = [0u8; 32];
            block_is_latest(id, head, &none)
        }
    }

    /// Applies `tx` to the engine: a call when it has a destination, a
    /// deployment of its data when it has none.
    pub fn apply_tx(&mut self, tx: &TypedTx) -> (r: Result<TxRes<E::Exit>, ExecError<E::Error>>)
        ensures
            final(self).inner == old(self).inner,
            apply_post::<E>(old(self).vm.view(), *tx, r, final(self).vm.view()),
            r is Ok ==> (r->Ok_0.output is CreateRes <==> tx.to is None),
    {
        let from = match tx.from {
            Some(a) => a,
            None => default_sender(),
        };
        let val = match tx.value {
            Some(v) => v,
            None => Word::zero(),
        };
        let data: Vec<u8> = match &tx.data {
            Some(d) => d.clone(),
            None => Vec::new(),
        };
        proof {
            assert(data@ =~= spec_data(*tx));
        }
        match &tx.to {
            Some(NameOrAddress::Name(n)) => Err(ExecError::Unresolved(n.clone())),
            Some(NameOrAddress::Address(to)) => {
                match self.vm.call_raw(from, *to, data, val, false) {
                    Ok((bytes, exit, gas, logs)) => Ok(
                        TxRes { output: TxOutput::CallRes(bytes), exit, gas, logs },
                    ),
                    Err(e) => Err(ExecError::Evm(e)),
                }
            },
            None => {
                match self.vm.deploy(from, data, val) {
                    Ok((addr, exit, gas, logs)) => Ok(
                        TxRes { output: TxOutput::CreateRes(addr), exit, gas, logs },
                    ),
                    Err(e) => Err(ExecError::Evm(e)),
                }
            },
        }
    }
}

} // verus!
