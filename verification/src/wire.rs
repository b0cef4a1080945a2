//! Big-endian byte-level encodings shared by the length calculator, the
//! writers and the readers, together with their round-trip lemmas.
use vstd::prelude::*;
use crate::types::TMessageType;
use crate::types::TType;
use crate::types::VERSION_1;

verus! {

/// The two big-endian bytes of a 16-bit value.
pub open spec fn be16(v: u16) -> Seq<u8> {
    seq![(v >> 8) as u8, v as u8]
}

/// The four big-endian bytes of a 32-bit value.
pub open spec fn be32(v: u32) -> Seq<u8> {
    seq![(v >> 24) as u8, (v >> 16) as u8, (v >> 8) as u8, v as u8]
}

/// The eight big-endian bytes of a 64-bit value.
pub open spec fn be64(v: u64) -> Seq<u8> {
    seq![
        (v >> 56) as u8,
        (v >> 48) as u8,
        (v >> 40) as u8,
        (v >> 32) as u8,
        (v >> 24) as u8,
        (v >> 16) as u8,
        (v >> 8) as u8,
        v as u8,
    ]
}

/// The 16-bit value read big-endian from the first two bytes of `s`.
pub open spec fn be16_of(s: Seq<u8>) -> u16
    recommends
        s.len() == 2,
{
    (((s[0] as u16) << 8) | (s[1] as u16)) as u16
}

/// The 32-bit value read big-endian from the first four bytes of `s`.
pub open spec fn be32_of(s: Seq<u8>) -> u32
    recommends
        s.len() == 4,
{
    (((s[0] as u32) << 24) | ((s[1] as u32) << 16) | ((s[2] as u32) << 8) | (s[3] as u32)) as u32
}

/// The 64-bit value read big-endian from the first eight bytes of `s`.
pub open spec fn be64_of(s: Seq<u8>) -> u64
    recommends
        s.len() == 8,
{
    (((s[0] as u64) << 56) | ((s[1] as u64) << 48) | ((s[2] as u64) << 40) | ((s[3] as u64) << 32)
        | ((s[4] as u64) << 24) | ((s[5] as u64) << 16) | ((s[6] as u64) << 8) | (s[7] as u64)) as u64
}

pub fn u16_to_be(v: u16) -> (r: [u8; 2])
    ensures
        r@ == be16(v),
{
    let r = [(v >> 8) as u8, v as u8];
    proof {
        assert(r@ =~= be16(v));
    }
    r
}

pub fn u32_to_be(v: u32) -> (r: [u8; 4])
    ensures
        r@ == be32(v),
{
    let r = [(v >> 24) as u8, (v >> 16) as u8, (v >> 8) as u8, v as u8];
    proof {
        assert(r@ =~= be32(v));
    }
    r
}

pub fn u64_to_be(v: u64) -> (r: [u8; 8])
    ensures
        r@ == be64(v),
{
    let r = [
        (v >> 56) as u8,
        (v >> 48) as u8,
        (v >> 40) as u8,
        (v >> 32) as u8,
        (v >> 24) as u8,
        (v >> 16) as u8,
        (v >> 8) as u8,
        v as u8,
    ];
    proof {
        assert(r@ =~= be64(v));
    }
    r
}

pub fn u16_from_be(b0: u8, b1: u8) -> (r: u16)
    ensures
        r == be16_of(seq![b0, b1]),
{
    ((b0 as u16) << 8u16) | (b1 as u16)
}

pub fn u32_from_be(b0: u8, b1: u8, b2: u8, b3: u8) -> (r: u32)
    ensures
        r == be32_of(seq![b0, b1, b2, b3]),
{
    ((b0 as u32) << 24u32) | ((b1 as u32) << 16u32) | ((b2 as u32) << 8u32) | (b3 as u32)
}

pub fn u64_from_be(b: &[u8]) -> (r: u64)
    requires
        b@.len() == 8,
    ensures
        r == be64_of(b@),
{
    ((*vstd::slice::slice_index_get(b, 0) as u64) << 56u64)
        | ((*vstd::slice::slice_index_get(b, 1) as u64) << 48u64)
        | ((*vstd::slice::slice_index_get(b, 2) as u64) << 40u64)
        | ((*vstd::slice::slice_index_get(b, 3) as u64) << 32u64)
        | ((*vstd::slice::slice_index_get(b, 4) as u64) << 24u64)
        | ((*vstd::slice::slice_index_get(b, 5) as u64) << 16u64)
        | ((*vstd::slice::slice_index_get(b, 6) as u64) << 8u64)
        | (*vstd::slice::slice_index_get(b, 7) as u64)
}

/// The single byte a boolean is written as.
pub open spec fn bool_byte(b: bool) -> u8 {
    if b {
        1
    } else {
        0
    }
}

/// A payload preceded by its 32-bit big-endian length.
pub open spec fn length_prefixed(payload: Seq<u8>) -> Seq<u8> {
    be32(payload.len() as u32) + payload
}

/// The bytes of a message envelope header: the version word carrying the
/// message type in its low nibble, the length-prefixed name, and the
/// sequence number.
pub open spec fn message_begin_bytes(t: TMessageType, name: Seq<u8>, seq: i32) -> Seq<u8> {
    be32(VERSION_1 | t.spec_code() as u32) + length_prefixed(name) + be32(seq as u32)
}

/// The bytes of a field header: the type tag then the field id.
pub open spec fn field_begin_bytes(t: TType, id: i16) -> Seq<u8> {
    seq![t.spec_code()] + be16(id as u16)
}

/// The bytes of a list or set header: the element tag then the size.
pub open spec fn collection_begin_bytes(t: TType, size: usize) -> Seq<u8> {
    seq![t.spec_code()] + be32(size as u32)
}

/// The bytes of a map header: the key tag, the value tag, then the size.
pub open spec fn map_begin_bytes(k: TType, v: TType, size: usize) -> Seq<u8> {
    seq![k.spec_code(), v.spec_code()] + be32(size as u32)
}

/// Casting an unsigned 32-bit value to signed and back gives the value
/// again.
pub proof fn lemma_u32_cast_roundtrip(x: u32)
    ensures
        (x as i32) as u32 == x,
{
    assert((x as i32) as u32 == x) by (bit_vector);
}

/// A length that fits in a signed 32-bit value encodes the same through a
/// signed cast as through a direct unsigned cast.
pub proof fn lemma_len_cast(n: usize)
    requires
        n <= 0x7fffffff,
    ensures
        (n as i32) as u32 == n as u32,
        n as i32 >= 0,
{
    assert(n <= 0x7fffffff ==> ((n as i32) as u32 == n as u32 && n as i32 >= 0)) by (bit_vector);
}

/// Reading back the two bytes of a 16-bit value gives the value again.
pub proof fn lemma_be16_roundtrip(v: u16)
    ensures
        be16_of(be16(v)) == v,
{
    assert((((((v >> 8) as u8) as u16) << 8) | (((v as u8) as u16))) == v) by (bit_vector);
}

/// Reading back the four bytes of a 32-bit value gives the value again.
pub proof fn lemma_be32_roundtrip(v: u32)
    ensures
        be32_of(be32(v)) == v,
{
    assert((((((v >> 24) as u8) as u32) << 24) | ((((v >> 16) as u8) as u32) << 16) | ((((v
        >> 8) as u8) as u32) << 8) | (((v as u8) as u32))) == v) by (bit_vector);
}

/// Reading back the eight bytes of a 64-bit value gives the value again.
pub proof fn lemma_be64_roundtrip(v: u64)
    ensures
        be64_of(be64(v)) == v,
{
    assert((((((v >> 56) as u8) as u64) << 56) | ((((v >> 48) as u8) as u64) << 48) | ((((v
        >> 40) as u8) as u64) << 40) | ((((v >> 32) as u8) as u64) << 32) | ((((v
        >> 24) as u8) as u64) << 24) | ((((v >> 16) as u8) as u64) << 16) | ((((v
        >> 8) as u8) as u64) << 8) | (((v as u8) as u64))) == v) by (bit_vector);
}

/// Casting a signed 32-bit value to unsigned and back gives the value again.
pub proof fn lemma_i32_cast_roundtrip(v: i32)
    ensures
        (v as u32) as i32 == v,
{
    assert((v as u32) as i32 == v) by (bit_vector);
}

/// Casting a signed 16-bit value to unsigned and back gives the value again.
pub proof fn lemma_i16_cast_roundtrip(v: i16)
    ensures
        (v as u16) as i16 == v,
{
    assert((v as u16) as i16 == v) by (bit_vector);
}

/// Casting a signed 64-bit value to unsigned and back gives the value again.
pub proof fn lemma_i64_cast_roundtrip(v: i64)
    ensures
        (v as u64) as i64 == v,
{
    assert((v as u64) as i64 == v) by (bit_vector);
}

} // verus!
