use vstd::prelude::*;

verus! {

/// A 20-byte account address.
pub type Address = [u8; 20];

/// A 32-byte hash.
pub type H256 = [u8; 32];

/// A 256-bit unsigned quantity (balance, value, gas, price), held as four
/// 64-bit limbs, least significant first.
#[derive(Clone, Copy, Debug, PartialEq, Eq, Structural)]
pub struct Word {
    pub l0: u64,
    pub l1: u64,
    pub l2: u64,
    pub l3: u64,
}

pub open spec fn limb_base() -> nat {
    0x1_0000_0000_0000_0000nat
}

impl Word {
    /// The number that the limbs stand for.
    pub open spec fn value(self) -> nat {
        self.l0 as nat + limb_base() * (self.l1 as nat + limb_base() * (self.l2 as nat
            + limb_base() * (self.l3 as nat)))
    }

    pub open spec fn spec_zero() -> Word {
        Word { l0: 0, l1: 0, l2: 0, l3: 0 }
    }

    pub fn zero() -> (r: Word)
        ensures
            r == Word::spec_zero(),
            r.value() == 0,
    {
        Word { l0: 0, l1: 0, l2: 0, l3: 0 }
    }

    pub fn from_u64(n: u64) -> (r: Word)
        ensures
            r == (Word { l0: n, l1: 0, l2: 0, l3: 0 }),
            r.value() == n as nat,
    {
        Word { l0: n, l1: 0, l2: 0, l3: 0 }
    }

    /// Strict comparison of the numbers two words stand for.
    pub fn lt(&self, o: &Word) -> (r: bool)
        ensures
            r == (self.value() < o.value()),
    {
        proof {
            lemma_word_order(self.l0 as nat, self.l1 as nat, self.l2 as nat, self.l3 as nat,
                o.l0 as nat, o.l1 as nat, o.l2 as nat, o.l3 as nat);
        }
        if self.l3 != o.l3 {
            self.l3 < o.l3
        } else if self.l2 != o.l2 {
            self.l2 < o.l2
        } else if self.l1 != o.l1 {
            self.l1 < o.l1
        } else {
            self.l0 < o.l0
        }
    }
}

proof fn lemma_two_limbs(lo1: nat, hi1: nat, lo2: nat, hi2: nat, bound: nat)
    requires
        lo1 < bound,
        lo2 < bound,
    ensures
        hi1 < hi2 ==> lo1 + bound * hi1 < lo2 + bound * hi2,
        hi1 == hi2 ==> (lo1 + bound * hi1 < lo2 + bound * hi2 <==> lo1 < lo2),
{
    if hi1 < hi2 {
        assert(bound * hi1 + bound <= bound * hi2) by (nonlinear_arith)
            requires hi1 < hi2;
    }
}

proof fn lemma_word_order(a0: nat, a1: nat, a2: nat, a3: nat, b0: nat, b1: nat, b2: nat, b3: nat)
    requires
        a0 < limb_base(), a1 < limb_base(), a2 < limb_base(),
        b0 < limb_base(), b1 < limb_base(), b2 < limb_base(),
    ensures
        ({
            let va = a0 + limb_base() * (a1 + limb_base() * (a2 + limb_base() * a3));
            let vb = b0 + limb_base() * (b1 + limb_base() * (b2 + limb_base() * b3));
            &&& a3 != b3 ==> (va < vb <==> a3 < b3)
            &&& a3 == b3 && a2 != b2 ==> (va < vb <==> a2 < b2)
            &&& a3 == b3 && a2 == b2 && a1 != b1 ==> (va < vb <==> a1 < b1)
            &&& a3 == b3 && a2 == b2 && a1 == b1 ==> (va < vb <==> a0 < b0)
        }),
{
    let base = limb_base();
    let la = a0 + base * a1;
    let lb = b0 + base * b1;
    assert(a0 + base * a1 < base * base) by (nonlinear_arith)
        requires a0 < base, a1 < base;
    assert(b0 + base * b1 < base * base) by (nonlinear_arith)
        requires b0 < base, b1 < base;
    let ma = la + base * base * a2;
    let mb = lb + base * base * b2;
    assert(la + base * base * a2 < base * base * base) by (nonlinear_arith)
        requires la < base * base, a2 < base;
    assert(lb + base * base * b2 < base * base * base) by (nonlinear_arith)
        requires lb < base * base, b2 < base;
    lemma_two_limbs(a0, a1, b0, b1, base);
    lemma_two_limbs(la, a2, lb, b2, base * base);
    lemma_two_limbs(ma, a3, mb, b3, base * base * base);
    assert(a0 + base * (a1 + base * (a2 + base * a3)) == ma + base * base * base * a3)
        by (nonlinear_arith)
        requires ma == a0 + base * a1 + base * base * a2;
    assert(b0 + base * (b1 + base * (b2 + base * b3)) == mb + base * base * base * b3)
        by (nonlinear_arith)
        requires mb == b0 + base * b1 + base * base * b2;
}

/// A destination that is either a concrete address or a name that still has
/// to be resolved.
#[derive(Clone, Debug)]
pub enum NameOrAddress {
    Name(String),
    Address(Address),
}

/// A block selector by tag or number.
#[derive(Clone, Copy, Debug)]
pub enum BlockNumber {
    Latest,
    Earliest,
    Pending,
    Number(u64),
}

/// A block identifier: a hash or a block selector.
#[derive(Clone, Copy, Debug)]
pub enum BlockId {
    Hash(H256),
    Number(BlockNumber),
}

/// The scheme of a transaction.
#[derive(Clone, Copy, Debug, PartialEq, Eq, Structural)]
pub enum TxKind {
    Legacy,
    Eip2930,
    Eip1559,
}

/// One entry of an access list: an account and the storage slots it touches.
#[derive(Clone, Debug)]
pub struct AccessListItem {
    pub address: Address,
    pub storage_keys: Vec<H256>,
}

/// A transaction request of any scheme, partially or fully filled.
///
/// `gas_price` is used by the legacy and access-list schemes, the two fee
/// fields by the fee-market scheme; `access_list` by every scheme but the
/// legacy one.
#[derive(Clone, Debug)]
pub struct TypedTx {
    pub kind: TxKind,
    pub from: Option<Address>,
    pub to: Option<NameOrAddress>,
    pub value: Option<Word>,
    pub data: Option<Vec<u8>>,
    pub gas: Option<Word>,
    pub gas_price: Option<Word>,
    pub max_fee_per_gas: Option<Word>,
    pub max_priority_fee_per_gas: Option<Word>,
    pub access_list: Vec<AccessListItem>,
}

impl TypedTx {
    /// A transaction of the given scheme with every field unset.
    pub fn new(kind: TxKind) -> (r: TypedTx)
        ensures
            r.kind == kind,
            r.from is None,
            r.to is None,
            r.value is None,
            r.data is None,
            r.gas is None,
            r.gas_price is None,
            r.max_fee_per_gas is None,
            r.max_priority_fee_per_gas is None,
            r.access_list@.len() == 0,
    {
        TypedTx {
            kind,
            from: None,
            to: None,
            value: None,
            data: None,
            gas: None,
            gas_price: None,
            max_fee_per_gas: None,
            max_priority_fee_per_gas: None,
            access_list: Vec::new(),
        }
    }
}

} // verus!
