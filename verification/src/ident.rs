//! Token identifiers and account addresses.
//!
//! Both are opaque byte strings to the marketplace: it only ever compares
//! and copies them.

use vstd::prelude::*;

verus! {

/// Whether two byte strings are the same.
pub fn bytes_same(a: &[u8], b: &[u8]) -> (r: bool)
    ensures
        r == (a@ == b@),
{
    if a.len() != b.len() {
        return false;
    }
    let mut i: usize = 0;
    while i < a.len()
        invariant
            i <= a@.len(),
            a@.len() == b@.len(),
            forall|j: int| 0 <= j < i ==> a@[j] == b@[j],
        decreases a@.len() - i,
    {
        if a[i] != b[i] {
            return false;
        }
        i = i + 1;
    }
    assert(a@ =~= b@);
    true
}

/// A value that is told apart from others of its type by a byte string.
pub trait Identifier: Sized {
    /// The byte string that identifies the value.
    spec fn key(&self) -> Seq<u8>;

    /// Whether the two values have the same key.
    fn same(&self, other: &Self) -> (r: bool)
        ensures
            r == (self.key() == other.key()),
    ;

    /// A copy of the value.
    fn duplicate(&self) -> (r: Self)
        ensures
            r.key() == self.key(),
    ;
}

/// The identifier of a token. The empty identifier stands for the native
/// currency of the ledger.
#[derive(Debug)]
pub struct TokenId {
    name: Vec<u8>,
}

impl View for TokenId {
    type V = Seq<u8>;

    closed spec fn view(&self) -> Seq<u8> {
        self.name@
    }
}

impl TokenId {
    /// The token with the given identifier.
    pub fn new(name: Vec<u8>) -> (r: TokenId)
        ensures
            r@ == name@,
    {
        TokenId { name }
    }

    /// The native currency.
    pub fn egld() -> (r: TokenId)
        ensures
            r@ == Seq::<u8>::empty(),
    {
        TokenId { name: Vec::new() }
    }

    /// Whether this is the native currency.
    pub fn is_egld(&self) -> (r: bool)
        ensures
            r == (self@.len() == 0),
    {
        self.name.len() == 0
    }

    /// The identifier's bytes.
    pub fn as_bytes(&self) -> (r: &Vec<u8>)
        ensures
            r@ == self@,
    {
        &self.name
    }
}

impl Identifier for TokenId {
    open spec fn key(&self) -> Seq<u8> {
        self@
    }

    fn same(&self, other: &TokenId) -> (r: bool) {
        bytes_same(self.name.as_slice(), other.name.as_slice())
    }

    fn duplicate(&self) -> (r: TokenId) {
        let name = self.name.clone();
        assert(name@ =~= self.name@);
        TokenId { name }
    }
}

/// The address of an account: 32 bytes. The address of 32 zero bytes stands
/// for "no account".
#[derive(Clone, Copy, Debug)]
pub struct Address {
    bytes: [u8; 32],
}

impl View for Address {
    type V = Seq<u8>;

    closed spec fn view(&self) -> Seq<u8> {
        self.bytes@
    }
}

/// The view of the address that stands for "no account".
pub open spec fn zero_address() -> Seq<u8> {
    Seq::new(32, |i: int| 0u8)
}

impl Address {
    /// The address with the given bytes.
    pub fn new(bytes: [u8; 32]) -> (r: Address)
        ensures
            r@ == bytes@,
    {
        Address { bytes }
    }

    /// The address that stands for "no account".
    pub fn zero() -> (r: Address)
        ensures
            r@ == zero_address(),
    {
        let r = Address { bytes: [0u8; 32] };
        assert(r@ =~= zero_address());
        r
    }

    /// Whether this is the address that stands for "no account".
    pub fn is_zero(&self) -> (r: bool)
        ensures
            r == (self@ == zero_address()),
    {
        let mut i: usize = 0;
        while i < 32
            invariant
                i <= 32,
                self.bytes@.len() == 32,
                forall|j: int| 0 <= j < i ==> self.bytes@[j] == 0,
            decreases 32 - i,
        {
            if self.bytes[i] != 0 {
                assert(zero_address()[i as int] == 0);
                return false;
            }
            i = i + 1;
        }
        assert(self@ =~= zero_address());
        true
    }

    /// The address's bytes.
    pub fn to_bytes(&self) -> (r: [u8; 32])
        ensures
            r@ == self@,
    {
        self.bytes
    }

    /// Every address has 32 bytes.
    pub proof fn lemma_len(&self)
        ensures
            self@.len() == 32,
    {
    }
}

impl Identifier for Address {
    open spec fn key(&self) -> Seq<u8> {
        self@
    }

    fn same(&self, other: &Address) -> (r: bool) {
        bytes_same(self.bytes.as_slice(), other.bytes.as_slice())
    }

    fn duplicate(&self) -> (r: Address) {
        Address { bytes: self.bytes }
    }
}

} // verus!
