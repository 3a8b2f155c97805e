//! Error payloads: a 4-byte selector taken from the Keccak-256 digest of the
//! error's canonical signature, followed by one 32-byte word per field.
use vstd::prelude::*;
use crate::address::Address;
use crate::uint::{U256, limb_base};
use vstd::string::StringSliceAdditionalSpecFns;

verus! {

/// The Keccak-256 digest of `data`.
pub uninterp spec fn keccak_of(data: Seq<u8>) -> Seq<u8>;

/// Relies on keccak-const's `Keccak256` (re-exported by stylus-sdk): the
/// Keccak-256 digest of `data`.
#[verifier::external_body]
fn keccak256(data: &[u8]) -> (r: [u8; 32])
    ensures
        r@ == keccak_of(data@),
{
    stylus_sdk::keccak_const::Keccak256::new().update(data).finalize()
}

/// The digest of `data`, as a vector.
pub fn digest_of(data: &[u8]) -> (r: Vec<u8>)
    ensures
        r@ == keccak_of(data@),
{
    let d = keccak256(data);
    let mut r: Vec<u8> = Vec::new();
    let mut i: usize = 0;
    while i < 32
        invariant
            0 <= i <= 32,
            r@ == d@.subrange(0, i as int),
        decreases 32 - i,
    {
        r.push(d[i]);
        i += 1;
    }
    assert(d@.subrange(0, 32) =~= d@);
    r
}

/// The selector of a signature: the first four bytes of its digest.
pub open spec fn selector(signature: Seq<u8>) -> Seq<u8> {
    keccak_of(signature).subrange(0, 4)
}

/// The eight bytes of a limb, most significant first.
pub open spec fn limb_bytes(x: u64) -> Seq<u8> {
    Seq::new(8, |i: int| ((x >> ((56 - 8 * i) as u64)) & 0xffu64) as u8)
}

/// An amount as one 32-byte big-endian word.
pub open spec fn amount_word(v: U256) -> Seq<u8> {
    limb_bytes(v.limbs[3]) + limb_bytes(v.limbs[2]) + limb_bytes(v.limbs[1]) + limb_bytes(
        v.limbs[0],
    )
}

/// An address as one 32-byte word: twelve zero bytes, then its twenty bytes.
pub open spec fn address_word(a: Address) -> Seq<u8> {
    Seq::new(12, |i: int| 0u8) + a.bytes@
}

/// The number a byte sequence spells, most significant byte first.
pub open spec fn be_value(s: Seq<u8>) -> nat
    decreases s.len(),
{
    if s.len() == 0 {
        0
    } else {
        be_value(s.drop_last()) * 256 + s.last() as nat
    }
}

/// 256 to the power `n`.
pub open spec fn pow256(n: nat) -> nat
    decreases n,
{
    if n == 0 {
        1
    } else {
        pow256((n - 1) as nat) * 256
    }
}

/// The value of two byte sequences one after the other.
proof fn lemma_be_value_append(a: Seq<u8>, b: Seq<u8>)
    ensures
        be_value(a + b) == be_value(a) * pow256(b.len()) + be_value(b),
    decreases b.len(),
{
    if b.len() == 0 {
        assert(a + b =~= a);
        assert(pow256(0) == 1);
        assert(be_value(b) == 0);
    } else {
        let c = b.drop_last();
        lemma_be_value_append(a, c);
        assert((a + b).drop_last() =~= a + c);
        assert((a + b).last() == b.last());
        assert(pow256(b.len()) == pow256(c.len()) * 256);
        let (x, p, y) = (be_value(a) as int, pow256(c.len()) as int, be_value(c) as int);
        assert((x * p + y) * 256 + b.last() == x * (p * 256) + (y * 256 + b.last())) by (nonlinear_arith);
        assert(be_value(a + c) == x * p + y);
        assert(be_value(a + b) == be_value(a + c) * 256 + b.last());
        assert(be_value(b) == y * 256 + b.last());
        assert(be_value(a) * pow256(b.len()) == x * (p * 256));
    }
}

/// A limb's eight bytes spell the limb.
proof fn lemma_limb_bytes_value(x: u64)
    ensures
        be_value(limb_bytes(x)) == x,
{
    let s = limb_bytes(x);
    let b0 = (x >> 56u64) & 0xffu64;
    let b1 = (x >> 48u64) & 0xffu64;
    let b2 = (x >> 40u64) & 0xffu64;
    let b3 = (x >> 32u64) & 0xffu64;
    let b4 = (x >> 24u64) & 0xffu64;
    let b5 = (x >> 16u64) & 0xffu64;
    let b6 = (x >> 8u64) & 0xffu64;
    let b7 = (x >> 0u64) & 0xffu64;
    assert(x == ((((((b0 * 256 + b1) * 256 + b2) * 256 + b3) * 256 + b4) * 256 + b5) * 256 + b6) * 256 + b7
        && b0 < 256 && b1 < 256 && b2 < 256 && b3 < 256 && b4 < 256 && b5 < 256 && b6 < 256 && b7 < 256)
        by (bit_vector)
        requires
            b0 == (x >> 56u64) & 0xffu64,
            b1 == (x >> 48u64) & 0xffu64,
            b2 == (x >> 40u64) & 0xffu64,
            b3 == (x >> 32u64) & 0xffu64,
            b4 == (x >> 24u64) & 0xffu64,
            b5 == (x >> 16u64) & 0xffu64,
            b6 == (x >> 8u64) & 0xffu64,
            b7 == (x >> 0u64) & 0xffu64,
    ;
    assert(s[0] == b0 && s[1] == b1 && s[2] == b2 && s[3] == b3);
    assert(s[4] == b4 && s[5] == b5 && s[6] == b6 && s[7] == b7);
    reveal_with_fuel(be_value, 9);
    assert(s.drop_last().drop_last().drop_last().drop_last().drop_last().drop_last().drop_last().drop_last().len() == 0);
}

/// The amount word is the 32-byte big-endian form of the amount: read as a
/// number, most significant byte first, it is the amount.
pub proof fn lemma_amount_word_value(v: U256)
    ensures
        amount_word(v).len() == 32,
        be_value(amount_word(v)) == v@,
{
    let (l3, l2, l1, l0) = (limb_bytes(v.limbs[3]), limb_bytes(v.limbs[2]), limb_bytes(v.limbs[1]), limb_bytes(v.limbs[0]));
    lemma_limb_bytes_value(v.limbs[3]);
    lemma_limb_bytes_value(v.limbs[2]);
    lemma_limb_bytes_value(v.limbs[1]);
    lemma_limb_bytes_value(v.limbs[0]);
    lemma_be_value_append(l3, l2);
    lemma_be_value_append(l3 + l2, l1);
    lemma_be_value_append(l3 + l2 + l1, l0);
    reveal_with_fuel(pow256, 9);
    assert(pow256(8) == limb_base());
    assert(l3.len() == 8 && l2.len() == 8 && l1.len() == 8 && l0.len() == 8);
    let w = limb_base() as int;
    let (x3, x2, x1, x0) = (v.limbs[3] as int, v.limbs[2] as int, v.limbs[1] as int, v.limbs[0] as int);
    assert(be_value(l3 + l2 + l1 + l0) == ((x3 * w + x2) * w + x1) * w + x0);
    assert(((x3 * w + x2) * w + x1) * w + x0 == x0 + w * (x1 + w * (x2 + w * x3))) by (nonlinear_arith);
}

/// A payload from the digest of an error's signature and its encoded fields.
pub fn error_payload(digest: &[u8; 32], fields: &[u8]) -> (r: Vec<u8>)
    ensures
        r@ == digest@.subrange(0, 4) + fields@,
{
    let mut r: Vec<u8> = Vec::new();
    let mut i: usize = 0;
    while i < 4
        invariant
            0 <= i <= 4,
            r@ == digest@.subrange(0, i as int),
        decreases 4 - i,
    {
        r.push(digest[i]);
        i += 1;
    }
    let mut j: usize = 0;
    while j < fields.len()
        invariant
            0 <= j <= fields@.len(),
            r@ == digest@.subrange(0, 4) + fields@.subrange(0, j as int),
        decreases fields@.len() - j,
    {
        r.push(fields[j]);
        j += 1;
    }
    assert(fields@.subrange(0, fields@.len() as int) =~= fields@);
    r
}

/// The payload of an error with the given signature and encoded fields.
pub fn encode_error(signature: &str, fields: &[u8]) -> (r: Vec<u8>)
    ensures
        r@ == selector(signature.spec_bytes()) + fields@,
{
    let digest = keccak256(signature.as_bytes());
    error_payload(&digest, fields)
}

/// Appends the eight bytes of `x`, most significant first.
fn push_limb(out: &mut Vec<u8>, x: u64)
    ensures
        final(out)@ == old(out)@ + limb_bytes(x),
{
    let ghost start = out@;
    let mut i: u64 = 0;
    while i < 8
        invariant
            0 <= i <= 8,
            out@ == start + limb_bytes(x).subrange(0, i as int),
        decreases 8 - i,
    {
        out.push(((x >> (56 - 8 * i)) & 0xff) as u8);
        i += 1;
    }
    assert(limb_bytes(x).subrange(0, 8) =~= limb_bytes(x));
}

/// Appends the 32-byte word of an amount.
pub fn push_amount(out: &mut Vec<u8>, v: U256)
    ensures
        final(out)@ == old(out)@ + amount_word(v),
{
    let ghost start = out@;
    push_limb(out, v.limbs[3]);
    push_limb(out, v.limbs[2]);
    push_limb(out, v.limbs[1]);
    push_limb(out, v.limbs[0]);
    assert(out@ =~= start + amount_word(v));
}

/// Appends the 32-byte word of an address.
pub fn push_address(out: &mut Vec<u8>, a: Address)
    ensures
        final(out)@ == old(out)@ + address_word(a),
{
    let ghost start = out@;
    let mut i: usize = 0;
    while i < 12
        invariant
            0 <= i <= 12,
            out@ == start + Seq::new(i as nat, |k: int| 0u8),
        decreases 12 - i,
    {
        out.push(0u8);
        i += 1;
        assert(out@ =~= start + Seq::new(i as nat, |k: int| 0u8));
    }
    let mut j: usize = 0;
    while j < 20
        invariant
            0 <= j <= 20,
            out@ == start + Seq::new(12, |k: int| 0u8) + a.bytes@.subrange(0, j as int),
        decreases 20 - j,
    {
        out.push(a.bytes[j]);
        j += 1;
        assert(out@ =~= start + Seq::new(12, |k: int| 0u8) + a.bytes@.subrange(0, j as int));
    }
    assert(a.bytes@.subrange(0, 20) =~= a.bytes@);
    assert(out@ =~= start + address_word(a));
}

} // verus!
