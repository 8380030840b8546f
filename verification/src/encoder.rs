//! Canonical byte encoding of a submission triple.

use vstd::prelude::*;
use crate::hash256::H256;

verus! {

/// Byte `i` of `n` in little-endian order: the eight bits standing `8 * i`
/// bits above the least significant one.
pub open spec fn u64_le_byte(n: u64, i: int) -> u8 {
    ((n >> ((8 * i) as u64)) & 0xff) as u8
}

/// The eight bytes of `n`, least significant first.
pub open spec fn u64_le(n: u64) -> Seq<u8> {
    Seq::new(8, |i: int| u64_le_byte(n, i))
}

/// The canonical encoding of a submission triple: the submitter id and the
/// nonce as eight little-endian bytes each, then the 32 proof bytes, 48
/// bytes in all.
pub open spec fn encode_triple(who: u64, nonce: u64, proof: Seq<u8>) -> Seq<u8> {
    u64_le(who) + u64_le(nonce) + proof
}

/// Relies on `parity_scale_codec::Encode::encode`: a tuple encodes as its
/// fields in order, a `u64` as its eight little-endian bytes, and a
/// `[u8; 32]` as its 32 bytes unchanged.
#[verifier::external_body]
pub(crate) fn encode_submission(who: u64, nonce: u64, proof: &H256) -> (r: Vec<u8>)
    requires
        proof.wf(),
    ensures
        r@ == encode_triple(who, nonce, proof@),
{
    let mut raw = [0u8; 32];
    raw.copy_from_slice(proof.as_bytes());
    parity_scale_codec::Encode::encode(&(who, nonce, raw))
}

/// Two distinct eight-byte little-endian strings come from two distinct
/// numbers: the encoding of a `u64` is unambiguous.
pub proof fn lemma_u64_le_injective(a: u64, b: u64)
    requires
        u64_le(a) == u64_le(b),
    ensures
        a == b,
{
    let s1 = u64_le(a);
    let s2 = u64_le(b);
    assert(forall|i: int| 0 <= i < 8 ==> s1[i] == u64_le_byte(a, i));
    assert(forall|i: int| 0 <= i < 8 ==> s2[i] == u64_le_byte(b, i));
    assert(forall|i: int| 0 <= i < 8 ==> u64_le_byte(a, i) == u64_le_byte(b, i));
    assert(u64_le_byte(a, 0) == u64_le_byte(b, 0));
    assert(u64_le_byte(a, 1) == u64_le_byte(b, 1));
    assert(u64_le_byte(a, 2) == u64_le_byte(b, 2));
    assert(u64_le_byte(a, 3) == u64_le_byte(b, 3));
    assert(u64_le_byte(a, 4) == u64_le_byte(b, 4));
    assert(u64_le_byte(a, 5) == u64_le_byte(b, 5));
    assert(u64_le_byte(a, 6) == u64_le_byte(b, 6));
    assert(u64_le_byte(a, 7) == u64_le_byte(b, 7));
    assert(a == b) by (bit_vector)
        requires
            ((a >> 0u64) & 0xff) as u8 == ((b >> 0u64) & 0xff) as u8,
            ((a >> 8u64) & 0xff) as u8 == ((b >> 8u64) & 0xff) as u8,
            ((a >> 16u64) & 0xff) as u8 == ((b >> 16u64) & 0xff) as u8,
            ((a >> 24u64) & 0xff) as u8 == ((b >> 24u64) & 0xff) as u8,
            ((a >> 32u64) & 0xff) as u8 == ((b >> 32u64) & 0xff) as u8,
            ((a >> 40u64) & 0xff) as u8 == ((b >> 40u64) & 0xff) as u8,
            ((a >> 48u64) & 0xff) as u8 == ((b >> 48u64) & 0xff) as u8,
            ((a >> 56u64) & 0xff) as u8 == ((b >> 56u64) & 0xff) as u8,
    ;
}

/// The encoding is unambiguous: no two distinct triples share one byte
/// string.
pub proof fn lemma_encode_unambiguous(
    w1: u64,
    n1: u64,
    p1: Seq<u8>,
    w2: u64,
    n2: u64,
    p2: Seq<u8>,
)
    requires
        p1.len() == 32,
        p2.len() == 32,
        encode_triple(w1, n1, p1) == encode_triple(w2, n2, p2),
    ensures
        w1 == w2,
        n1 == n2,
        p1 == p2,
{
    let e1 = encode_triple(w1, n1, p1);
    let e2 = encode_triple(w2, n2, p2);
    assert(u64_le(w1) =~= e1.subrange(0, 8));
    assert(u64_le(w2) =~= e2.subrange(0, 8));
    lemma_u64_le_injective(w1, w2);
    assert(u64_le(n1) =~= e1.subrange(8, 16));
    assert(u64_le(n2) =~= e2.subrange(8, 16));
    lemma_u64_le_injective(n1, n2);
    assert(p1 =~= e1.subrange(16, 48));
    assert(p2 =~= e2.subrange(16, 48));
    assert(p1 =~= p2);
}

} // verus!
