//! The codec's laws: every construct decodes back to the value it was
//! encoded from, wherever its bytes sit in a larger stream, and every
//! encoding is exactly as long as the length pass reports.
//!
//! The round-trip lemmas are stated over the same spec functions the
//! writers' and readers' contracts use, so together with those contracts
//! they say: reading what a writer produced yields the written value.
use vstd::prelude::*;
use crate::reader::read_len_at;
use crate::types::spec_type_from_u8;
use crate::types::spec_validate_version;
use crate::types::DecodeErrorKind;
use crate::types::TMessageType;
use crate::types::TType;
use crate::types::VERSION_1;
use crate::wire::be16;
use crate::wire::be16_of;
use crate::wire::be32;
use crate::wire::be32_of;
use crate::wire::be64;
use crate::wire::be64_of;
use crate::wire::bool_byte;
use crate::wire::collection_begin_bytes;
use crate::wire::field_begin_bytes;
use crate::wire::length_prefixed;
use crate::wire::lemma_be16_roundtrip;
use crate::wire::lemma_be32_roundtrip;
use crate::wire::lemma_be64_roundtrip;
use crate::wire::lemma_i16_cast_roundtrip;
use crate::wire::lemma_i32_cast_roundtrip;
use crate::wire::lemma_i64_cast_roundtrip;
use crate::wire::map_begin_bytes;
use crate::wire::message_begin_bytes;

verus! {

/// A block of bytes standing between arbitrary surroundings is read back
/// exactly.
pub proof fn lemma_subrange_of_concat(prefix: Seq<u8>, mid: Seq<u8>, rest: Seq<u8>)
    ensures
        (prefix + mid + rest).subrange(prefix.len() as int, prefix.len() + mid.len() as int) == mid,
{
    assert((prefix + mid + rest).subrange(prefix.len() as int, prefix.len() + mid.len() as int) =~= mid);
}

/// Every type tag decodes back from its own wire code.
pub proof fn lemma_type_code_roundtrip(t: TType)
    ensures
        spec_type_from_u8(t.spec_code()) == Some(t),
{
}

/// Every message type decodes back from its own code.
pub proof fn lemma_message_type_code_roundtrip(t: TMessageType)
    ensures
        TMessageType::spec_from_u8(t.spec_code()) == Some(t),
{
}

/// The version word written for a message type passes validation and
/// yields that type back.
pub proof fn lemma_validate_version_of_word(t: TMessageType)
    ensures
        spec_validate_version((VERSION_1 | t.spec_code() as u32) as i32) == Ok::<
            TMessageType,
            DecodeErrorKind,
        >(t),
{
    let c = t.spec_code();
    assert(1 <= c <= 4);
    assert(((0x80010000u32 | (c as u32)) as i32) <= 0) by (bit_vector)
        requires
            c <= 15,
    ;
    assert(((((0x80010000u32 | (c as u32)) as i32) as u32) & 0xf) as u8 == c) by (bit_vector)
        requires
            c <= 15,
    ;
    assert(((((0x80010000u32 | (c as u32)) as i32) as u32) & 0xffff0000) == 0x80010000)
        by (bit_vector)
        requires
            c <= 15,
    ;
}

/// A 32-bit value decodes back from its bytes wherever they stand.
pub proof fn lemma_i32_roundtrip_at(v: i32, prefix: Seq<u8>, rest: Seq<u8>)
    ensures
        be32_of(
            (prefix + be32(v as u32) + rest).subrange(prefix.len() as int, prefix.len() as int + 4),
        ) as i32 == v,
{
    lemma_subrange_of_concat(prefix, be32(v as u32), rest);
    lemma_be32_roundtrip(v as u32);
    lemma_i32_cast_roundtrip(v);
}

/// A 16-bit value decodes back from its bytes wherever they stand.
pub proof fn lemma_i16_roundtrip_at(v: i16, prefix: Seq<u8>, rest: Seq<u8>)
    ensures
        be16_of(
            (prefix + be16(v as u16) + rest).subrange(prefix.len() as int, prefix.len() as int + 2),
        ) as i16 == v,
{
    lemma_subrange_of_concat(prefix, be16(v as u16), rest);
    lemma_be16_roundtrip(v as u16);
    lemma_i16_cast_roundtrip(v);
}

/// A 64-bit value decodes back from its bytes wherever they stand.
pub proof fn lemma_i64_roundtrip_at(v: i64, prefix: Seq<u8>, rest: Seq<u8>)
    ensures
        be64_of(
            (prefix + be64(v as u64) + rest).subrange(prefix.len() as int, prefix.len() as int + 8),
        ) as i64 == v,
{
    lemma_subrange_of_concat(prefix, be64(v as u64), rest);
    lemma_be64_roundtrip(v as u64);
    lemma_i64_cast_roundtrip(v);
}

/// A double's bit pattern decodes back from its bytes wherever they stand.
pub proof fn lemma_double_roundtrip_at(d: u64, prefix: Seq<u8>, rest: Seq<u8>)
    ensures
        be64_of((prefix + be64(d) + rest).subrange(prefix.len() as int, prefix.len() as int + 8)) == d,
{
    lemma_subrange_of_concat(prefix, be64(d), rest);
    lemma_be64_roundtrip(d);
}

/// A boolean decodes back from its byte wherever it stands.
pub proof fn lemma_bool_roundtrip_at(b: bool, prefix: Seq<u8>, rest: Seq<u8>)
    ensures
        ((prefix + seq![bool_byte(b)] + rest)[prefix.len() as int] != 0) == b,
{
    lemma_subrange_of_concat(prefix, seq![bool_byte(b)], rest);
}

/// A uuid decodes back from its sixteen raw bytes wherever they stand.
pub proof fn lemma_uuid_roundtrip_at(u: Seq<u8>, prefix: Seq<u8>, rest: Seq<u8>)
    requires
        u.len() == 16,
    ensures
        (prefix + u + rest).subrange(prefix.len() as int, prefix.len() as int + 16) == u,
{
    lemma_subrange_of_concat(prefix, u, rest);
}

/// A length-prefixed payload decodes back exactly: the prefix reads as the
/// payload's length and the payload bytes follow unchanged.
pub proof fn lemma_length_prefixed_roundtrip(payload: Seq<u8>, prefix: Seq<u8>, rest: Seq<u8>)
    requires
        payload.len() <= 0x7fffffff,
    ensures
        ({
            let s = prefix + length_prefixed(payload) + rest;
            let i = prefix.len() as int;
            &&& read_len_at(s, i) == payload.len()
            &&& s.subrange(i + 4, i + 4 + payload.len()) == payload
        }),
{
    let s = prefix + length_prefixed(payload) + rest;
    let i = prefix.len() as int;
    assert(s.subrange(i, i + 4) =~= be32(payload.len() as u32));
    lemma_be32_roundtrip(payload.len() as u32);
    assert(s.subrange(i + 4, i + 4 + payload.len()) =~= payload);
}

/// A field header decodes back to its tag and id wherever it stands.
pub proof fn lemma_field_begin_roundtrip(t: TType, id: i16, prefix: Seq<u8>, rest: Seq<u8>)
    ensures
        ({
            let s = prefix + field_begin_bytes(t, id) + rest;
            let i = prefix.len() as int;
            &&& spec_type_from_u8(s[i]) == Some(t)
            &&& be16_of(s.subrange(i + 1, i + 3)) as i16 == id
        }),
{
    let s = prefix + field_begin_bytes(t, id) + rest;
    let i = prefix.len() as int;
    lemma_type_code_roundtrip(t);
    assert(s[i] == t.spec_code());
    assert(s.subrange(i + 1, i + 3) =~= be16(id as u16));
    lemma_be16_roundtrip(id as u16);
    lemma_i16_cast_roundtrip(id);
}

/// A list or set header decodes back to its element tag and size wherever
/// it stands.
pub proof fn lemma_collection_begin_roundtrip(t: TType, size: usize, prefix: Seq<u8>, rest: Seq<
    u8,
>)
    requires
        size <= 0x7fffffff,
    ensures
        ({
            let s = prefix + collection_begin_bytes(t, size) + rest;
            let i = prefix.len() as int;
            &&& spec_type_from_u8(s[i]) == Some(t)
            &&& read_len_at(s, i + 1) == size
        }),
{
    let s = prefix + collection_begin_bytes(t, size) + rest;
    let i = prefix.len() as int;
    lemma_type_code_roundtrip(t);
    assert(s[i] == t.spec_code());
    assert(s.subrange(i + 1, i + 5) =~= be32(size as u32));
    lemma_be32_roundtrip(size as u32);
}

/// A map header decodes back to its key tag, value tag and size wherever
/// it stands.
pub proof fn lemma_map_begin_roundtrip(k: TType, v: TType, size: usize, prefix: Seq<u8>, rest: Seq<
    u8,
>)
    requires
        size <= 0x7fffffff,
    ensures
        ({
            let s = prefix + map_begin_bytes(k, v, size) + rest;
            let i = prefix.len() as int;
            &&& spec_type_from_u8(s[i]) == Some(k)
            &&& spec_type_from_u8(s[i + 1]) == Some(v)
            &&& read_len_at(s, i + 2) == size
        }),
{
    let s = prefix + map_begin_bytes(k, v, size) + rest;
    let i = prefix.len() as int;
    lemma_type_code_roundtrip(k);
    lemma_type_code_roundtrip(v);
    assert(s[i] == k.spec_code());
    assert(s[i + 1] == v.spec_code());
    assert(s.subrange(i + 2, i + 6) =~= be32(size as u32));
    lemma_be32_roundtrip(size as u32);
}

/// A message envelope decodes back exactly: the version word validates to
/// the written message type, the name length and bytes read back, and the
/// sequence number follows.
pub proof fn lemma_message_begin_roundtrip(
    t: TMessageType,
    name: Seq<u8>,
    seq: i32,
    prefix: Seq<u8>,
    rest: Seq<u8>,
)
    requires
        name.len() <= 0x7fffffff,
    ensures
        ({
            let s = prefix + message_begin_bytes(t, name, seq) + rest;
            let i = prefix.len() as int;
            &&& spec_validate_version(be32_of(s.subrange(i, i + 4)) as i32) == Ok::<
                TMessageType,
                DecodeErrorKind,
            >(t)
            &&& read_len_at(s, i + 4) == name.len()
            &&& s.subrange(i + 8, i + 8 + name.len()) == name
            &&& be32_of(s.subrange(i + 8 + name.len(), i + 12 + name.len())) as i32 == seq
        }),
{
    let s = prefix + message_begin_bytes(t, name, seq) + rest;
    let i = prefix.len() as int;
    assert(s.subrange(i, i + 4) =~= be32(VERSION_1 | t.spec_code() as u32));
    lemma_be32_roundtrip(VERSION_1 | t.spec_code() as u32);
    lemma_validate_version_of_word(t);
    assert(s.subrange(i + 4, i + 8) =~= be32(name.len() as u32));
    lemma_be32_roundtrip(name.len() as u32);
    assert(s.subrange(i + 8, i + 8 + name.len()) =~= name);
    assert(s.subrange(i + 8 + name.len(), i + 12 + name.len()) =~= be32(seq as u32));
    lemma_be32_roundtrip(seq as u32);
    lemma_i32_cast_roundtrip(seq);
}

/// The length pass agrees with the writers: a message header occupies
/// twelve bytes plus the name, exactly what `write_message_begin_len`
/// reports for it.
pub proof fn lemma_message_begin_len(t: TMessageType, name: Seq<u8>, seq: i32)
    ensures
        message_begin_bytes(t, name, seq).len() == 12 + name.len(),
{
}

/// The length pass agrees with the writers: a field header occupies three
/// bytes, exactly what `write_field_begin_len` reports.
pub proof fn lemma_field_begin_len(t: TType, id: i16)
    ensures
        field_begin_bytes(t, id).len() == 3,
{
}

/// The length pass agrees with the writers: a list or set header occupies
/// five bytes, exactly what `write_list_begin_len` reports.
pub proof fn lemma_collection_begin_len(t: TType, size: usize)
    ensures
        collection_begin_bytes(t, size).len() == 5,
{
}

/// The length pass agrees with the writers: a map header occupies six
/// bytes, exactly what `write_map_begin_len` reports.
pub proof fn lemma_map_begin_len(k: TType, v: TType, size: usize)
    ensures
        map_begin_bytes(k, v, size).len() == 6,
{
}

/// The length pass agrees with the writers: a length-prefixed payload
/// occupies four bytes plus the payload, exactly what `write_bytes_len`
/// reports; and the payload share that may move by reference never
/// exceeds that total.
pub proof fn lemma_length_prefixed_len(payload: Seq<u8>)
    ensures
        length_prefixed(payload).len() == 4 + payload.len(),
        payload.len() <= length_prefixed(payload).len(),
{
}

} // verus!
