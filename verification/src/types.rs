//! The two value types the vault works with: a 20-byte token address and a
//! 256-bit amount kept as its 32-byte big-endian word.

use vstd::prelude::*;

use crate::words::{be_nat, lemma_be_nat_is_zero, lemma_be_nat_zero, lemma_be_nat_zero_prefix,
    zero_bytes};

verus! {

/// A token or account address: exactly 20 bytes, big-endian order, no
/// checksum of any kind.
#[derive(Debug)]
pub struct Address {
    pub(crate) bytes: Vec<u8>,
}

impl View for Address {
    type V = Seq<u8>;

    closed spec fn view(&self) -> Seq<u8> {
        self.bytes@
    }
}

impl Address {
    /// An address is well formed when it holds exactly 20 bytes.
    pub open spec fn wf(&self) -> bool {
        self@.len() == 20
    }

    /// Wraps 20 bytes as an address; any other length is rejected.
    pub fn from_bytes(bytes: Vec<u8>) -> (r: Option<Address>)
        ensures
            bytes@.len() == 20 ==> (r matches Some(a) && a@ == bytes@),
            bytes@.len() != 20 ==> r is None,
    {
        if bytes.len() == 20 {
            Some(Address { bytes })
        } else {
            None
        }
    }

    /// The all-zero address.
    pub fn zero() -> (r: Address)
        ensures
            r.wf(),
            r@ == zero_bytes(20),
    {
        let bytes = zero_byte_vec(20);
        assert(bytes@ =~= zero_bytes(20));
        Address { bytes }
    }

    /// The 20 raw bytes of the address.
    pub fn as_bytes(&self) -> (r: &Vec<u8>)
        ensures
            r@ == self@,
    {
        &self.bytes
    }

    /// Byte-for-byte equality of two addresses.
    pub fn eq_addr(&self, other: &Address) -> (r: bool)
        ensures
            r == (self@ == other@),
    {
        eq_byte_vecs(&self.bytes, &other.bytes)
    }

    /// A fresh address holding the same 20 bytes.
    pub fn copied(&self) -> (r: Address)
        ensures
            r@ == self@,
    {
        Address { bytes: copy_byte_vec(&self.bytes) }
    }
}

/// A 256-bit unsigned amount, kept as its 32-byte big-endian word.
#[derive(Debug)]
pub struct Amount {
    pub(crate) bytes: Vec<u8>,
}

impl View for Amount {
    type V = Seq<u8>;

    closed spec fn view(&self) -> Seq<u8> {
        self.bytes@
    }
}

impl Amount {
    /// An amount is well formed when it holds exactly 32 bytes.
    pub open spec fn wf(&self) -> bool {
        self@.len() == 32
    }

    /// The integer this word stands for.
    pub open spec fn value(&self) -> nat {
        be_nat(self@)
    }

    /// Wraps a 32-byte big-endian word as an amount; any other length is
    /// rejected.
    pub fn from_bytes(bytes: Vec<u8>) -> (r: Option<Amount>)
        ensures
            bytes@.len() == 32 ==> (r matches Some(a) && a@ == bytes@),
            bytes@.len() != 32 ==> r is None,
    {
        if bytes.len() == 32 {
            Some(Amount { bytes })
        } else {
            None
        }
    }

    /// The amount zero.
    pub fn zero() -> (r: Amount)
        ensures
            r.wf(),
            r@ == zero_bytes(32),
            r.value() == 0,
    {
        let bytes = zero_byte_vec(32);
        assert(bytes@ =~= zero_bytes(32));
        proof {
            lemma_be_nat_zero(32);
        }
        Amount { bytes }
    }

    /// The amount with the given small value, left-padded with zero bytes.
    pub fn from_u64(x: u64) -> (r: Amount)
        ensures
            r.wf(),
            r.value() == x,
    {
        let mut bytes = zero_byte_vec(24);
        let b0: u8 = (x >> 56) as u8;
        let b1: u8 = (x >> 48) as u8;
        let b2: u8 = (x >> 40) as u8;
        let b3: u8 = (x >> 32) as u8;
        let b4: u8 = (x >> 24) as u8;
        let b5: u8 = (x >> 16) as u8;
        let b6: u8 = (x >> 8) as u8;
        let b7: u8 = x as u8;
        bytes.push(b0);
        bytes.push(b1);
        bytes.push(b2);
        bytes.push(b3);
        bytes.push(b4);
        bytes.push(b5);
        bytes.push(b6);
        bytes.push(b7);
        proof {
            let tail = seq![b0, b1, b2, b3, b4, b5, b6, b7];
            assert(bytes@ =~= zero_bytes(24) + tail);
            lemma_be_nat_zero_prefix(24, tail);
            lemma_be_nat_u64_bytes(x, b0, b1, b2, b3, b4, b5, b6, b7);
        }
        Amount { bytes }
    }

    /// The 32 raw bytes of the amount.
    pub fn as_bytes(&self) -> (r: &Vec<u8>)
        ensures
            r@ == self@,
    {
        &self.bytes
    }

    /// Whether the amount is zero.
    pub fn is_zero(&self) -> (r: bool)
        ensures
            r == (self.value() == 0),
    {
        let mut i: usize = 0;
        while i < self.bytes.len()
            invariant
                0 <= i <= self.bytes.len(),
                forall|j: int| 0 <= j < i ==> self@[j] == 0,
            decreases self.bytes.len() - i,
        {
            if self.bytes[i] != 0 {
                proof {
                    lemma_be_nat_is_zero(self@);
                }
                return false;
            }
            i = i + 1;
        }
        proof {
            lemma_be_nat_is_zero(self@);
        }
        true
    }

    /// A fresh amount holding the same 32 bytes.
    pub fn copied(&self) -> (r: Amount)
        ensures
            r@ == self@,
    {
        Amount { bytes: copy_byte_vec(&self.bytes) }
    }
}

/// A well-formed amount's value fits in 256 bits.
pub proof fn lemma_amount_value_bound(a: &Amount)
    requires
        a.wf(),
    ensures
        a.value() < crate::words::pow2_256(),
{
    crate::words::lemma_be_nat_bound(a@);
    crate::words::lemma_pow256_32();
}

/// The big-endian bytes of a 64-bit integer carry exactly its value.
proof fn lemma_be_nat_u64_bytes(x: u64, b0: u8, b1: u8, b2: u8, b3: u8, b4: u8, b5: u8, b6: u8, b7: u8)
    requires
        b0 == (x >> 56) as u8,
        b1 == (x >> 48) as u8,
        b2 == (x >> 40) as u8,
        b3 == (x >> 32) as u8,
        b4 == (x >> 24) as u8,
        b5 == (x >> 16) as u8,
        b6 == (x >> 8) as u8,
        b7 == x as u8,
    ensures
        be_nat(seq![b0, b1, b2, b3, b4, b5, b6, b7]) == x,
{
    let s = seq![b0, b1, b2, b3, b4, b5, b6, b7];
    assert(seq![b0].drop_last() =~= Seq::<u8>::empty());
    assert(be_nat(Seq::<u8>::empty()) == 0);
    assert(be_nat(seq![b0]) == b0);
    assert(seq![b0, b1].drop_last() =~= seq![b0]);
    assert(be_nat(seq![b0, b1]) == b0 * 256 + b1);
    assert(seq![b0, b1, b2].drop_last() =~= seq![b0, b1]);
    assert(be_nat(seq![b0, b1, b2]) == (b0 * 256 + b1) * 256 + b2);
    assert(seq![b0, b1, b2, b3].drop_last() =~= seq![b0, b1, b2]);
    assert(be_nat(seq![b0, b1, b2, b3]) == ((b0 * 256 + b1) * 256 + b2) * 256 + b3);
    assert(seq![b0, b1, b2, b3, b4].drop_last() =~= seq![b0, b1, b2, b3]);
    assert(be_nat(seq![b0, b1, b2, b3, b4]) == (((b0 * 256 + b1) * 256 + b2) * 256 + b3) * 256
        + b4);
    assert(seq![b0, b1, b2, b3, b4, b5].drop_last() =~= seq![b0, b1, b2, b3, b4]);
    assert(be_nat(seq![b0, b1, b2, b3, b4, b5]) == ((((b0 * 256 + b1) * 256 + b2) * 256 + b3) * 256
        + b4) * 256 + b5);
    assert(seq![b0, b1, b2, b3, b4, b5, b6].drop_last() =~= seq![b0, b1, b2, b3, b4, b5]);
    assert(be_nat(seq![b0, b1, b2, b3, b4, b5, b6]) == (((((b0 * 256 + b1) * 256 + b2) * 256 + b3)
        * 256 + b4) * 256 + b5) * 256 + b6);
    assert(s.drop_last() =~= seq![b0, b1, b2, b3, b4, b5, b6]);
    assert(be_nat(s) == ((((((b0 * 256 + b1) * 256 + b2) * 256 + b3) * 256 + b4) * 256 + b5) * 256
        + b6) * 256 + b7);
    assert(((((((b0 * 256 + b1) * 256 + b2) * 256 + b3) * 256 + b4) * 256 + b5) * 256 + b6) * 256
        + b7 == x) by (bit_vector)
        requires
            b0 == (x >> 56) as u8,
            b1 == (x >> 48) as u8,
            b2 == (x >> 40) as u8,
            b3 == (x >> 32) as u8,
            b4 == (x >> 24) as u8,
            b5 == (x >> 16) as u8,
            b6 == (x >> 8) as u8,
            b7 == x as u8,
    ;
}

/// A vector of `n` zero bytes.
pub(crate) fn zero_byte_vec(n: usize) -> (r: Vec<u8>)
    ensures
        r@ == zero_bytes(n as nat),
{
    let mut v: Vec<u8> = Vec::new();
    let mut i: usize = 0;
    while i < n
        invariant
            0 <= i <= n,
            v@ =~= zero_bytes(i as nat),
        decreases n - i,
    {
        v.push(0);
        assert(v@ =~= zero_bytes((i + 1) as nat));
        i = i + 1;
    }
    assert(v@ =~= zero_bytes(n as nat));
    v
}

/// A fresh vector holding the same bytes.
pub(crate) fn copy_byte_vec(src: &Vec<u8>) -> (r: Vec<u8>)
    ensures
        r@ == src@,
{
    let mut v: Vec<u8> = Vec::new();
    let mut i: usize = 0;
    while i < src.len()
        invariant
            0 <= i <= src@.len(),
            v@ =~= src@.subrange(0, i as int),
        decreases src@.len() - i,
    {
        v.push(src[i]);
        assert(v@ =~= src@.subrange(0, (i + 1) as int));
        i = i + 1;
    }
    assert(v@ =~= src@);
    v
}

/// Byte-for-byte equality of two vectors.
pub(crate) fn eq_byte_vecs(a: &Vec<u8>, b: &Vec<u8>) -> (r: bool)
    ensures
        r == (a@ == b@),
{
    if a.len() != b.len() {
        return false;
    }
    let mut i: usize = 0;
    while i < a.len()
        invariant
            0 <= i <= a@.len(),
            a@.len() == b@.len(),
            forall|j: int| 0 <= j < i ==> a@[j] == b@[j],
        decreases a@.len() - i,
    {
        if a[i] != b[i] {
            return false;
        }
        i = i + 1;
    }
    assert(a@ =~= b@);
    true
}

} // verus!
