use vstd::prelude::*;
use crate::evm::VmShow;
use crate::forge::is_empty_hash;
use crate::types::{Address, H256, Word};

verus! {

/// Gas reported for every call of the in-memory engine.
pub const CALL_GAS: u64 = 21000;

/// Gas reported for every deployment of the in-memory engine.
pub const CREATE_GAS: u64 = 53000;

/// An account as the model sees it: address, balance, code.
pub type AccountModel = (Address, u64, Seq<u8>);

/// The state of the in-memory engine.
pub struct MemModel {
    pub accounts: Seq<AccountModel>,
    pub hashes: Seq<H256>,
    pub gas_price: u64,
    pub chain_id: u64,
    pub gas_limit: u64,
    pub created: u64,
}

/// Index of the last account with address `a`, or -1.
pub open spec fn find(s: Seq<AccountModel>, a: Address) -> int
    decreases s.len(),
{
    if s.len() == 0 {
        -1
    } else if s.last().0 == a {
        s.len() - 1
    } else {
        find(s.drop_last(), a)
    }
}

pub proof fn lemma_find_range(s: Seq<AccountModel>, a: Address)
    ensures
        -1 <= find(s, a) < s.len(),
        find(s, a) >= 0 ==> s[find(s, a)].0 == a,
    decreases s.len(),
{
    if s.len() > 0 && s.last().0 != a {
        lemma_find_range(s.drop_last(), a);
    }
}

pub open spec fn word_of(n: u64) -> Word {
    Word { l0: n, l1: 0, l2: 0, l3: 0 }
}

pub open spec fn zero_hash() -> H256 {
    choose|h: H256| is_empty_hash(h)
}

pub open spec fn created_address_bytes(n: u64) -> Seq<u8> {
    Seq::new(
        20,
        |i: int|
            if i == 0 {
                0xC0u8
            } else if i == 18 {
                ((n + 1) / 256) as u8
            } else if i == 19 {
                ((n + 1) % 256) as u8
            } else {
                0u8
            },
    )
}

/// The address of the `n`-th contract the engine creates.
pub open spec fn created_address(n: u64) -> Address {
    choose|a: Address| a@ == created_address_bytes(n)
}

pub open spec fn balance_in(s: Seq<AccountModel>, a: Address) -> u64 {
    if find(s, a) >= 0 {
        s[find(s, a)].1
    } else {
        0
    }
}

/// `s` with `amount` more on the balance of `a` (a new account if needed).
pub open spec fn credit(s: Seq<AccountModel>, a: Address, amount: u64) -> Seq<AccountModel> {
    let i = find(s, a);
    if i >= 0 {
        s.update(i, (a, (s[i].1 + amount) as u64, s[i].2))
    } else {
        s.push((a, amount, Seq::empty()))
    }
}

/// Whether `from` can pay `value` (a value that fits in 64 bits).
pub open spec fn can_pay(s: Seq<AccountModel>, from: Address, value: Word) -> bool {
    &&& value.l1 == 0 && value.l2 == 0 && value.l3 == 0
    &&& find(s, from) >= 0
    &&& s[find(s, from)].1 >= value.l0
}

pub open spec fn debit(s: Seq<AccountModel>, from: Address, v: u64) -> Seq<AccountModel> {
    let i = find(s, from);
    s.update(i, (from, (s[i].1 - v) as u64, s[i].2))
}

/// A simple engine that keeps accounts in memory: a call moves value from
/// the sender to the destination, a deployment stores the init code as the
/// new contract's code and gives it the value. Neither runs code, and gas is
/// a flat amount. An execution that cannot pay, or would overflow a balance,
/// ends unsuccessfully and changes nothing.
pub struct MemVm {
    pub accounts: Vec<Account>,
    pub hashes: Vec<H256>,
    pub gas_price: u64,
    pub chain_id: u64,
    pub gas_limit: u64,
    pub created: u64,
}

pub struct Account {
    pub address: Address,
    pub balance: u64,
    pub code: Vec<u8>,
}

/// Why the in-memory engine failed.
#[derive(Clone, Copy, Debug, PartialEq, Eq, Structural)]
pub enum MemError {
    /// No fresh contract address is left.
    AddressesExhausted,
}

pub open spec fn account_view(a: Account) -> AccountModel {
    (a.address, a.balance, a.code@)
}

impl MemVm {
    pub open spec fn model(&self) -> MemModel {
        MemModel {
            accounts: self.accounts@.map_values(|a: Account| account_view(a)),
            hashes: self.hashes@,
            gas_price: self.gas_price,
            chain_id: self.chain_id,
            gas_limit: self.gas_limit,
            created: self.created,
        }
    }

    pub fn new(chain_id: u64, gas_price: u64, gas_limit: u64) -> (r: MemVm)
        ensures
            r.model().accounts.len() == 0,
            r.model().hashes.len() == 0,
            r.model().chain_id == chain_id,
            r.model().gas_price == gas_price,
            r.model().gas_limit == gas_limit,
            r.model().created == 0,
    {
        MemVm { accounts: Vec::new(), hashes: Vec::new(), gas_price, chain_id, gas_limit, created: 0 }
    }

    /// Records a produced block with hash `hash`; the head counter grows by one.
    pub fn push_block(&mut self, hash: H256)
        ensures
            final(self).model() == (MemModel { hashes: old(self).model().hashes.push(hash), ..old(self).model() }),
    {
        self.hashes.push(hash);
        proof {
            assert(self.model().accounts =~= old(self).model().accounts);
            assert(self.model().hashes =~= old(self).model().hashes.push(hash));
        }
    }

    fn find_index(&self, a: Address) -> (r: Option<usize>)
        ensures
            match r {
                Some(i) => find(self.model().accounts, a) == i as int && i < self.accounts.len(),
                None => find(self.model().accounts, a) == -1,
            },
    {
        let ghost s = self.model().accounts;
        let mut i: usize = self.accounts.len();
        assert(s.subrange(0, i as int) =~= s);
        while i > 0
            invariant
                i <= self.accounts.len(),
                s == self.model().accounts,
                find(s, a) == find(s.subrange(0, i as int), a),
            decreases i,
        {
            let ghost p = s.subrange(0, i as int);
            assert(p.drop_last() =~= s.subrange(0, i - 1));
            if addr_eq(&self.accounts[i - 1].address, &a) {
                assert(p.last().0 == a);
                assert(s.subrange(0, i as int).len() == i);
                return Some(i - 1);
            }
            i = i - 1;
        }
        assert(s.subrange(0, 0) =~= Seq::<AccountModel>::empty());
        None
    }

    /// Sets `a`'s balance to `amount`, making the account if needed.
    pub fn fund(&mut self, a: Address, amount: u64)
        ensures
            balance_in(final(self).model().accounts, a) == amount,
            final(self).model().hashes == old(self).model().hashes,
    {
        match self.find_index(a) {
            Some(i) => {
                let code = self.accounts[i].code.clone();
                self.accounts.set(i, Account { address: a, balance: amount, code });
                proof {
                    let s = self.model().accounts;
                    let o = old(self).model().accounts;
                    assert(s =~= o.update(i as int, (a, amount, o[i as int].2)));
                    lemma_find_update(o, i as int, a, amount);
                }
            },
            None => {
                self.accounts.push(Account { address: a, balance: amount, code: Vec::new() });
                proof {
                    let s = self.model().accounts;
                    let o = old(self).model().accounts;
                    assert(s =~= o.push((a, amount, Seq::empty())));
                    assert(s.drop_last() =~= o);
                }
            },
        }
    }
}

proof fn lemma_find_update(s: Seq<AccountModel>, i: int, a: Address, b: u64)
    requires
        find(s, a) == i,
        0 <= i < s.len(),
    ensures
        ({
            let t = s.update(i, (a, b, s[i].2));
            find(t, a) == i && t[i].1 == b
        }),
    decreases s.len(),
{
    let t = s.update(i, (a, b, s[i].2));
    if i < s.len() - 1 {
        assert(s.last().0 != a);
        assert(t.drop_last() =~= s.drop_last().update(i, (a, b, s[i].2)));
        lemma_find_update(s.drop_last(), i, a, b);
    }
}

pub fn addr_eq(a: &Address, b: &Address) -> (r: bool)
    ensures
        r == (*a == *b),
{
    let mut i: usize = 0;
    while i < 20
        invariant
            0 <= i <= 20,
            forall|j: int| 0 <= j < i ==> a@[j] == b@[j],
        decreases 20 - i,
    {
        if a[i] != b[i] {
            assert(a@[i as int] != b@[i as int]);
            return false;
        }
        i = i + 1;
    }
    assert(a@ =~= b@);
    assert(*a =~= *b);
    true
}


/// Changing an account but not its address keeps every lookup.
proof fn lemma_find_same_addrs(s: Seq<AccountModel>, i: int, e: AccountModel, x: Address)
    requires
        0 <= i < s.len(),
        s[i].0 == e.0,
    ensures
        find(s.update(i, e), x) == find(s, x),
    decreases s.len(),
{
    let t = s.update(i, e);
    if i < s.len() - 1 {
        assert(t.drop_last() =~= s.drop_last().update(i, e));
        lemma_find_same_addrs(s.drop_last(), i, e, x);
    } else {
        assert(t.drop_last() =~= s.drop_last());
    }
}

fn created_address_exec(n: u64) -> (r: Address)
    requires
        n < 65535,
    ensures
        r == created_address(n),
{
    let mut a: Address = [0u8; 20];
    a[0] = 0xC0u8;
    a[18] = ((n + 1) / 256) as u8;
    a[19] = ((n + 1) % 256) as u8;
    assert(a@ =~= created_address_bytes(n));
    let ghost c = created_address(n);
    assert(c@ == created_address_bytes(n));
    assert(a =~= c);
    a
}

fn call_failure() -> (r: Result<(Vec<u8>, bool, u64, Vec<String>), MemError>)
    ensures
        r is Ok,
        r->Ok_0.0@ == Seq::<u8>::empty(),
        r->Ok_0.1 == false,
        r->Ok_0.2 == CALL_GAS,
{
    Ok((Vec::new(), false, CALL_GAS, Vec::new()))
}

impl MemVm {
    /// Sets the balance of the account at index `i`.
    fn set_balance(&mut self, i: usize, b: u64)
        requires
            i < old(self).accounts.len(),
        ensures
            final(self).model() == (MemModel {
                accounts: old(self).model().accounts.update(
                    i as int,
                    (old(self).model().accounts[i as int].0, b, old(self).model().accounts[i as int].2),
                ),
                ..old(self).model()
            }),
    {
        let code = self.accounts[i].code.clone();
        let address = self.accounts[i].address;
        self.accounts.set(i, Account { address, balance: b, code });
        proof {
            let o = old(self).model().accounts;
            assert(self.model().accounts =~= o.update(i as int, (o[i as int].0, b, o[i as int].2)));
        }
    }

    /// Adds `v` to the balance of `to`, which must not overflow.
    fn credit_exec(&mut self, to: Address, v: u64)
        requires
            balance_in(old(self).model().accounts, to) + v <= u64::MAX,
        ensures
            final(self).model() == (MemModel {
                accounts: credit(old(self).model().accounts, to, v),
                ..old(self).model()
            }),
    {
        let ghost o = self.model().accounts;
        proof {
            lemma_find_range(o, to);
        }
        match self.find_index(to) {
            Some(i) => {
                let b = self.accounts[i].balance + v;
                self.set_balance(i, b);
            },
            None => {
                self.accounts.push(Account { address: to, balance: v, code: Vec::new() });
                proof {
                    assert(self.model().accounts =~= o.push((to, v, Seq::empty())));
                }
            },
        }
    }
}

impl VmShow for MemVm {
    type State = MemVm;
    type Model = MemModel;
    type Exit = bool;
    type Error = MemError;

    open spec fn view(&self) -> MemModel {
        self.model()
    }

    open spec fn snapshot_view(st: MemVm) -> MemModel {
        st.model()
    }

    open spec fn spec_gas_price(st: MemModel) -> Word {
        word_of(st.gas_price)
    }

    open spec fn spec_block_number(st: MemModel) -> u64 {
        st.hashes.len() as u64
    }

    open spec fn spec_chain_id(st: MemModel) -> Word {
        word_of(st.chain_id)
    }

    open spec fn spec_balance(st: MemModel, addr: Address) -> Word {
        word_of(balance_in(st.accounts, addr))
    }

    open spec fn spec_gas_limit(st: MemModel) -> Word {
        word_of(st.gas_limit)
    }

    open spec fn spec_block_hash(st: MemModel, num: u64) -> H256 {
        if num < st.hashes.len() {
            st.hashes[num as int]
        } else {
            zero_hash()
        }
    }

    open spec fn spec_code(st: MemModel, addr: Address) -> Seq<u8> {
        if find(st.accounts, addr) >= 0 {
            st.accounts[find(st.accounts, addr)].2
        } else {
            Seq::empty()
        }
    }

    open spec fn spec_is_success(exit: bool) -> bool {
        exit
    }

    open spec fn spec_call(
        st: MemModel,
        from: Address,
        to: Address,
        data: Seq<u8>,
        value: Word,
        is_static: bool,
    ) -> Result<(Seq<u8>, bool, u64, MemModel), MemError> {
        let d = debit(st.accounts, from, value.l0);
        if !can_pay(st.accounts, from, value) || (is_static && value.l0 > 0) || balance_in(d, to)
            + value.l0 > u64::MAX {
            Ok((Seq::empty(), false, CALL_GAS, st))
        } else {
            Ok((Seq::empty(), true, CALL_GAS, MemModel { accounts: credit(d, to, value.l0), ..st }))
        }
    }

    open spec fn spec_deploy(st: MemModel, from: Address, code: Seq<u8>, value: Word) -> Result<
        (Address, bool, u64, MemModel),
        MemError,
    > {
        let a = created_address(st.created);
        if st.created >= 65535 {
            Err(MemError::AddressesExhausted)
        } else if !can_pay(st.accounts, from, value) || find(st.accounts, a) >= 0 {
            Ok((a, false, CREATE_GAS, st))
        } else {
            Ok(
                (
                    a,
                    true,
                    CREATE_GAS,
                    MemModel {
                        accounts: debit(st.accounts, from, value.l0).push((a, value.l0, code)),
                        created: (st.created + 1) as u64,
                        ..st
                    },
                ),
            )
        }
    }

    fn gas_price(&self) -> (r: Word) {
        Word::from_u64(self.gas_price)
    }

    fn block_number(&self) -> (r: u64) {
        self.hashes.len() as u64
    }

    fn chain_id(&self) -> (r: Word) {
        Word::from_u64(self.chain_id)
    }

    fn balance(&self, addr: Address) -> (r: Word) {
        proof {
            lemma_find_range(self.model().accounts, addr);
        }
        match self.find_index(addr) {
            Some(i) => Word::from_u64(self.accounts[i].balance),
            None => Word::zero(),
        }
    }

    fn gas_limit(&self) -> (r: Word) {
        Word::from_u64(self.gas_limit)
    }

    fn block_hash(&self, num: u64) -> (r: H256) {
        let len = self.hashes.len() as u64;
        if num < len {
            self.hashes[num as usize]
        } else {
            let z: H256 = [0u8; 32];
            let ghost c = zero_hash();
            assert(is_empty_hash(z));
            assert(is_empty_hash(c));
            assert(z =~= c);
            z
        }
    }

    fn code(&self, addr: Address) -> (r: Vec<u8>) {
        proof {
            lemma_find_range(self.model().accounts, addr);
        }
        match self.find_index(addr) {
            Some(i) => self.accounts[i].code.clone(),
            None => Vec::new(),
        }
    }

    fn is_success(exit: &bool) -> (r: bool) {
        *exit
    }

    fn state(&self) -> (r: MemVm) {
        let mut accounts: Vec<Account> = Vec::new();
        let mut i: usize = 0;
        while i < self.accounts.len()
            invariant
                i <= self.accounts.len(),
                accounts.len() == i,
                forall|j: int| 0 <= j < i ==> account_view(#[trigger] accounts@[j]) == account_view(self.accounts@[j]),
            decreases self.accounts.len() - i,
        {
            let a = &self.accounts[i];
            accounts.push(Account { address: a.address, balance: a.balance, code: a.code.clone() });
            i = i + 1;
        }
        let mut hashes: Vec<H256> = Vec::new();
        let mut k: usize = 0;
        while k < self.hashes.len()
            invariant
                k <= self.hashes.len(),
                hashes@ == self.hashes@.subrange(0, k as int),
            decreases self.hashes.len() - k,
        {
            hashes.push(self.hashes[k]);
            k = k + 1;
            assert(hashes@ =~= self.hashes@.subrange(0, k as int));
        }
        let r = MemVm {
            accounts,
            hashes,
            gas_price: self.gas_price,
            chain_id: self.chain_id,
            gas_limit: self.gas_limit,
            created: self.created,
        };
        assert(r.model().accounts =~= self.model().accounts);
        assert(r.model().hashes =~= self.model().hashes);
        r
    }

    fn reset(&mut self, st: MemVm) {
        *self = st;
    }

    fn call_raw(
        &mut self,
        from: Address,
        to: Address,
        data: Vec<u8>,
        value: Word,
        is_static: bool,
    ) -> (r: Result<(Vec<u8>, bool, u64, Vec<String>), MemError>) {
        let ghost s = self.model().accounts;
        let v = value.l0;
        if value.l1 != 0 || value.l2 != 0 || value.l3 != 0 || (is_static && v > 0) {
            return call_failure();
        }
        proof {
            lemma_find_range(s, from);
        }
        let fi = match self.find_index(from) {
            Some(i) => i,
            None => {
                return call_failure();
            },
        };
        let fb = self.accounts[fi].balance;
        if fb < v {
            return call_failure();
        }
        let ghost d = debit(s, from, v);
        proof {
            lemma_find_same_addrs(s, fi as int, (from, (fb - v) as u64, s[fi as int].2), to);
            lemma_find_same_addrs(s, fi as int, (from, (fb - v) as u64, s[fi as int].2), from);
            lemma_find_range(s, to);
        }
        let to_bal: u64 = if addr_eq(&from, &to) {
            fb - v
        } else {
            match self.find_index(to) {
                Some(i) => self.accounts[i].balance,
                None => 0,
            }
        };
        if to_bal > u64::MAX - v {
            return call_failure();
        }
        self.set_balance(fi, fb - v);
        assert(self.model().accounts =~= d);
        self.credit_exec(to, v);
        Ok((Vec::new(), true, CALL_GAS, Vec::new()))
    }

    fn deploy(&mut self, from: Address, code: Vec<u8>, value: Word) -> (r: Result<
        (Address, bool, u64, Vec<String>),
        MemError,
    >) {
        let ghost s = self.model().accounts;
        if self.created >= 65535 {
            return Err(MemError::AddressesExhausted);
        }
        let a = created_address_exec(self.created);
        let v = value.l0;
        if value.l1 != 0 || value.l2 != 0 || value.l3 != 0 {
            return Ok((a, false, CREATE_GAS, Vec::new()));
        }
        proof {
            lemma_find_range(s, from);
        }
        let fi = match self.find_index(from) {
            Some(i) => i,
            None => {
                return Ok((a, false, CREATE_GAS, Vec::new()));
            },
        };
        let fb = self.accounts[fi].balance;
        if fb < v || self.find_index(a).is_some() {
            return Ok((a, false, CREATE_GAS, Vec::new()));
        }
        self.set_balance(fi, fb - v);
        let ghost d = self.model().accounts;
        self.accounts.push(Account { address: a, balance: v, code });
        self.created = self.created + 1;
        proof {
            assert(self.model().accounts =~= d.push((a, v, code@)));
        }
        Ok((a, true, CREATE_GAS, Vec::new()))
    }
}

} // verus!
