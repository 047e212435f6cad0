//! Ledger identities and balances.
//!
//! Every party and every derived record is identified by a 32-byte address.
//! An [`Account`] pairs an address with the balance the ledger holds for it;
//! the escrow engine moves value between such accounts.

use vstd::prelude::*;

verus! {

/// The length, in bytes, of every ledger address.
pub const ADDR_LEN: usize = 32;

/// A 32-byte ledger address identifying a party, a bet record or a vault.
pub struct Addr {
    pub bytes: Vec<u8>,
}

impl View for Addr {
    type V = Seq<u8>;

    open spec fn view(&self) -> Seq<u8> {
        self.bytes@
    }
}

impl Addr {
    /// A well-formed address holds exactly 32 bytes.
    pub open spec fn wf(self) -> bool {
        self@.len() == ADDR_LEN
    }

    /// Builds an address from raw bytes.
    pub fn new(bytes: Vec<u8>) -> (r: Addr)
        ensures
            r@ == bytes@,
    {
        Addr { bytes }
    }

    /// Returns a copy of this address holding the same bytes.
    pub fn dup(&self) -> (r: Addr)
        ensures
            r@ == self@,
    {
        Addr { bytes: copy_bytes(&self.bytes) }
    }
}

/// An account as the ledger sees it: an address and the balance it holds.
pub struct Account {
    pub addr: Addr,
    pub lamports: u64,
}

/// The mathematical image of an [`Account`]: its address bytes and balance.
#[verifier::ext_equal]
pub struct AccountV {
    pub addr: Seq<u8>,
    pub lamports: u64,
}

impl View for Account {
    type V = AccountV;

    open spec fn view(&self) -> AccountV {
        AccountV { addr: self.addr@, lamports: self.lamports }
    }
}

impl AccountV {
    pub open spec fn wf(self) -> bool {
        self.addr.len() == ADDR_LEN
    }
}

/// Returns a fresh vector holding the same bytes as `v`.
pub fn copy_bytes(v: &Vec<u8>) -> (r: Vec<u8>)
    ensures
        r@ == v@,
{
    let mut out: Vec<u8> = Vec::new();
    let mut i: usize = 0;
    while i < v.len()
        invariant
            i <= v.len(),
            out@ == v@.subrange(0, i as int),
        decreases v.len() - i,
    {
        out.push(v[i]);
        assert(out@ =~= v@.subrange(0, i + 1));
        i = i + 1;
    }
    assert(out@ =~= v@);
    out
}

/// Compares two byte strings for equality of contents.
pub fn bytes_eq(a: &Vec<u8>, b: &Vec<u8>) -> (r: bool)
    ensures
        r == (a@ == b@),
{
    if a.len() != b.len() {
        return false;
    }
    let mut i: usize = 0;
    while i < a.len()
        invariant
            i <= a.len(),
            a@.len() == b@.len(),
            forall|j: int| 0 <= j < i ==> a@[j] == b@[j],
        decreases a.len() - i,
    {
        if a[i] != b[i] {
            return false;
        }
        i = i + 1;
    }
    assert(a@ =~= b@);
    true
}

/// Compares two addresses for equality of their bytes.
pub fn addr_eq(a: &Addr, b: &Addr) -> (r: bool)
    ensures
        r == (a@ == b@),
{
    bytes_eq(&a.bytes, &b.bytes)
}

} // verus!
