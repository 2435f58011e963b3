//! Byte-sequence model shared by the encoder and the numeric types: the
//! big-endian value of a byte sequence, all-zero sequences, and the lemmas
//! that relate them.

use vstd::prelude::*;

verus! {

/// The value of a byte sequence read as a big-endian unsigned integer.
pub open spec fn be_nat(s: Seq<u8>) -> nat
    decreases s.len(),
{
    if s.len() == 0 {
        0
    } else {
        (be_nat(s.drop_last()) * 256 + s.last()) as nat
    }
}

/// A sequence of `n` zero bytes.
pub open spec fn zero_bytes(n: nat) -> Seq<u8> {
    Seq::new(n, |i: int| 0u8)
}

/// 256 raised to `n`: the number of values a byte sequence of length `n`
/// can take.
pub open spec fn pow256(n: nat) -> nat
    decreases n,
{
    if n == 0 {
        1
    } else {
        256 * pow256((n - 1) as nat)
    }
}

/// 2^256, the first value that does not fit in a 32-byte word.
pub open spec fn pow2_256() -> nat {
    0x10000000000000000000000000000000000000000000000000000000000000000nat
}

/// A sequence of zero bytes has value zero.
pub proof fn lemma_be_nat_zero(n: nat)
    ensures
        be_nat(zero_bytes(n)) == 0,
    decreases n,
{
    if n > 0 {
        assert(zero_bytes(n).drop_last() =~= zero_bytes((n - 1) as nat));
        lemma_be_nat_zero((n - 1) as nat);
    }
}

/// Leading zero bytes do not change the value of a sequence.
pub proof fn lemma_be_nat_zero_prefix(n: nat, s: Seq<u8>)
    ensures
        be_nat(zero_bytes(n) + s) == be_nat(s),
    decreases s.len(),
{
    if s.len() == 0 {
        assert(zero_bytes(n) + s =~= zero_bytes(n));
        lemma_be_nat_zero(n);
    } else {
        assert((zero_bytes(n) + s).drop_last() =~= zero_bytes(n) + s.drop_last());
        lemma_be_nat_zero_prefix(n, s.drop_last());
    }
}

/// A byte sequence is bounded by 256 to the power of its length.
pub proof fn lemma_be_nat_bound(s: Seq<u8>)
    ensures
        be_nat(s) < pow256(s.len()),
    decreases s.len(),
{
    if s.len() > 0 {
        lemma_be_nat_bound(s.drop_last());
    }
}

/// A 32-byte word holds exactly the values below 2^256.
pub proof fn lemma_pow256_32()
    ensures
        pow256(32) == pow2_256(),
{
    reveal_with_fuel(pow256, 33);
    assert(pow256(32) == pow2_256());
}

/// The last byte of a non-empty sequence is its value modulo 256, and the
/// value of the rest is the quotient.
proof fn lemma_be_nat_last_digit(s: Seq<u8>)
    requires
        s.len() > 0,
    ensures
        be_nat(s) % 256 == s.last(),
        be_nat(s) / 256 == be_nat(s.drop_last()),
{
    let q = be_nat(s.drop_last());
    let r = s.last();
    assert(be_nat(s) == q * 256 + r);
    assert((q * 256 + r) % 256 == r && (q * 256 + r) / 256 == q) by (nonlinear_arith)
        requires
            q >= 0,
            0 <= r < 256,
    ;
}

/// Two byte sequences of the same length with the same value are the same
/// bytes: a word determines its value and the value determines the word.
pub proof fn lemma_be_nat_injective(s1: Seq<u8>, s2: Seq<u8>)
    requires
        s1.len() == s2.len(),
        be_nat(s1) == be_nat(s2),
    ensures
        s1 == s2,
    decreases s1.len(),
{
    if s1.len() == 0 {
        assert(s1 =~= s2);
    } else {
        lemma_be_nat_last_digit(s1);
        lemma_be_nat_last_digit(s2);
        lemma_be_nat_injective(s1.drop_last(), s2.drop_last());
        assert forall|i: int| 0 <= i < s1.len() implies s1[i] == s2[i] by {
            if i < s1.len() - 1 {
                assert(s1[i] == s1.drop_last()[i]);
                assert(s2[i] == s2.drop_last()[i]);
            } else {
                assert(s1[i] == s1.last());
                assert(s2[i] == s2.last());
            }
        }
        assert(s1 =~= s2);
    }
}

/// A byte sequence has value zero exactly when every byte is zero.
pub proof fn lemma_be_nat_is_zero(s: Seq<u8>)
    ensures
        (be_nat(s) == 0) <==> (forall|i: int| 0 <= i < s.len() ==> s[i] == 0),
    decreases s.len(),
{
    if s.len() > 0 {
        lemma_be_nat_is_zero(s.drop_last());
        if be_nat(s) == 0 {
            assert(forall|i: int| 0 <= i < s.len() - 1 ==> s[i] == s.drop_last()[i]);
        } else {
            if forall|i: int| 0 <= i < s.len() ==> s[i] == 0 {
                assert(forall|i: int|
                    0 <= i < s.drop_last().len() ==> s.drop_last()[i] == s[i] && s[i] == 0);
                assert(s.last() == 0);
            }
        }
    }
}

} // verus!
