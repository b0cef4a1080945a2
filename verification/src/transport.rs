//! The trusted boundary to the buffer and string crates the codec runs over.
//!
//! Each buffer type is opaque to the verifier; an uninterpreted view gives
//! its byte contents, and every operation the codec uses is wrapped in a
//! small trusted function whose contract states, over those views, what the
//! crate's own source shows the operation does.
use vstd::prelude::*;
use vstd::utf8::valid_utf8;
use vstd::utf8::encode_utf8;
use bytes::Buf;
use bytes::Bytes;
use bytes::BytesMut;
use faststr::FastStr;
use linkedbytes::LinkedBytes;

verus! {

#[verifier::external_type_specification]
#[verifier::external_body]
pub struct ExBytesMut(BytesMut);

#[verifier::external_type_specification]
#[verifier::external_body]
pub struct ExBytes(Bytes);

#[verifier::external_type_specification]
#[verifier::external_body]
pub struct ExFastStr(FastStr);

#[verifier::external_type_specification]
#[verifier::external_body]
pub struct ExLinkedBytes(LinkedBytes);

/// The initialized bytes a `BytesMut` holds.
pub uninterp spec fn bm_view(b: BytesMut) -> Seq<u8>;

/// The bytes a frozen `Bytes` handle refers to.
pub uninterp spec fn bytes_view(b: Bytes) -> Seq<u8>;

/// The UTF-8 bytes of a `FastStr`.
pub uninterp spec fn fs_view(s: FastStr) -> Seq<u8>;

/// The bytes already committed to a chained buffer's segment list, in order.
pub uninterp spec fn lb_committed(lb: LinkedBytes) -> Seq<u8>;

/// The bytes of a chained buffer's current writable tail.
pub uninterp spec fn lb_tail(lb: LinkedBytes) -> Seq<u8>;

/// Relies on `BytesMut::len`: the number of initialized bytes held.
#[verifier::external_body]
pub(crate) fn bm_len(b: &BytesMut) -> (r: usize)
    ensures
        r == bm_view(*b).len(),
{
    b.len()
}

/// Relies on `BytesMut::extend_from_slice`: appends a copy of `src`,
/// growing the buffer as needed.
#[verifier::external_body]
pub(crate) fn bm_put_slice(b: &mut BytesMut, src: &[u8])
    ensures
        bm_view(*final(b)) == bm_view(*old(b)) + src@,
{
    b.extend_from_slice(src);
}

/// Relies on indexing through `BytesMut`'s deref to `[u8]`.
#[verifier::external_body]
pub(crate) fn bm_get(b: &BytesMut, i: usize) -> (r: u8)
    requires
        i < bm_view(*b).len(),
    ensures
        r == bm_view(*b)[i as int],
{
    b[i]
}

/// Relies on slicing through `BytesMut`'s deref to `[u8]`, copying the
/// range out.
#[verifier::external_body]
pub(crate) fn bm_copy_range(b: &BytesMut, i: usize, n: usize) -> (r: Vec<u8>)
    requires
        i + n <= bm_view(*b).len(),
    ensures
        r@ == bm_view(*b).subrange(i as int, i as int + n as int),
{
    b[i..i + n].to_vec()
}

/// Relies on slicing through `BytesMut`'s deref to `[u8]`; the sixteen-byte
/// range is returned as a fixed-size array.
#[verifier::external_body]
pub(crate) fn bm_read_arr16(b: &BytesMut, i: usize) -> (r: [u8; 16])
    requires
        i + 16 <= bm_view(*b).len(),
    ensures
        r@ == bm_view(*b).subrange(i as int, i as int + 16),
{
    b[i..i + 16].try_into().unwrap()
}

/// Relies on `Buf::advance` for `BytesMut`: discards the first `n` bytes.
#[verifier::external_body]
pub(crate) fn bm_advance(b: &mut BytesMut, n: usize)
    requires
        n <= bm_view(*old(b)).len(),
    ensures
        bm_view(*final(b)) == bm_view(*old(b)).skip(n as int),
{
    b.advance(n);
}

/// Relies on `BytesMut::split_to` and `BytesMut::freeze`: detaches the
/// first `n` bytes as an independently owned, reference-counted slice
/// without copying them.
#[verifier::external_body]
pub(crate) fn bm_split_to_freeze(b: &mut BytesMut, n: usize) -> (r: Bytes)
    requires
        n <= bm_view(*old(b)).len(),
    ensures
        bytes_view(r) == bm_view(*old(b)).take(n as int),
        bm_view(*final(b)) == bm_view(*old(b)).skip(n as int),
{
    b.split_to(n).freeze()
}

/// Relies on `Bytes::len`.
#[verifier::external_body]
pub(crate) fn bytes_len(b: &Bytes) -> (r: usize)
    ensures
        r == bytes_view(*b).len(),
{
    b.len()
}

/// Relies on `Bytes`'s `AsRef<[u8]>`.
#[verifier::external_body]
pub(crate) fn bytes_as_slice(b: &Bytes) -> (r: &[u8])
    ensures
        r@ == bytes_view(*b),
{
    b.as_ref()
}

/// Relies on `FastStr::len`: the byte length of the string. A `FastStr`
/// always holds valid UTF-8.
#[verifier::external_body]
pub(crate) fn fs_len(s: &FastStr) -> (r: usize)
    ensures
        r == fs_view(*s).len(),
{
    s.len()
}

/// Relies on `FastStr::as_str` and `str::as_bytes`. A `FastStr` always
/// holds valid UTF-8, so the returned bytes are valid UTF-8.
#[verifier::external_body]
pub(crate) fn fs_as_bytes(s: &FastStr) -> (r: &[u8])
    ensures
        r@ == fs_view(*s),
        valid_utf8(r@),
{
    s.as_str().as_bytes()
}

/// Relies on `FastStr`'s `Clone`: a shallow, reference-counted copy with
/// the same contents.
pub assume_specification[ <FastStr as Clone>::clone ](s: &FastStr) -> (r: FastStr)
    ensures
        fs_view(r) == fs_view(*s),
;

/// Relies on `FastStr::from_bytes`: succeeds exactly when the bytes are
/// valid UTF-8, keeping the reference-counted bytes without copying.
#[verifier::external_body]
pub(crate) fn fs_from_bytes(b: Bytes) -> (r: Option<FastStr>)
    ensures
        r is Some <==> valid_utf8(bytes_view(b)),
        r matches Some(s) ==> fs_view(s) == bytes_view(b),
{
    FastStr::from_bytes(b).ok()
}

/// Relies on `FastStr::from_string`: takes over the string's bytes.
#[verifier::external_body]
pub(crate) fn fs_from_string(s: String) -> (r: FastStr)
    ensures
        fs_view(r) == encode_utf8(s@),
{
    FastStr::from_string(s)
}

/// Relies on `String::from_utf8`: succeeds exactly when the bytes are
/// valid UTF-8, and keeps them unchanged.
#[verifier::external_body]
pub(crate) fn string_from_utf8(v: Vec<u8>) -> (r: Option<String>)
    ensures
        r is Some <==> valid_utf8(v@),
        r matches Some(s) ==> encode_utf8(s@) == v@,
{
    String::from_utf8(v).ok()
}

/// Relies on `LinkedBytes::bytes` and `BytesMut::len`: the length of the
/// current writable tail.
#[verifier::external_body]
pub(crate) fn lb_tail_len(lb: &LinkedBytes) -> (r: usize)
    ensures
        r == lb_tail(*lb).len(),
{
    lb.bytes().len()
}

/// Relies on `LinkedBytes::bytes_mut` and `BytesMut::extend_from_slice`:
/// appends a copy of `src` to the current tail.
#[verifier::external_body]
pub(crate) fn lb_tail_put_slice(lb: &mut LinkedBytes, src: &[u8])
    ensures
        lb_committed(*final(lb)) == lb_committed(*old(lb)),
        lb_tail(*final(lb)) == lb_tail(*old(lb)) + src@,
{
    lb.bytes_mut().extend_from_slice(src);
}

/// Relies on `LinkedBytes::insert`: commits the current tail to the
/// segment list (when non-empty) and appends the given bytes by reference,
/// without copying them; the tail is empty afterwards.
#[verifier::external_body]
pub(crate) fn lb_insert(lb: &mut LinkedBytes, b: Bytes)
    ensures
        lb_committed(*final(lb)) == lb_committed(*old(lb)) + lb_tail(*old(lb)) + bytes_view(b),
        lb_tail(*final(lb)) == Seq::<u8>::empty(),
{
    lb.insert(b);
}

/// Relies on `LinkedBytes::insert_faststr`: commits the current tail to
/// the segment list (when non-empty) and appends the string's bytes by
/// reference, without copying them; the tail is empty afterwards.
#[verifier::external_body]
pub(crate) fn lb_insert_faststr(lb: &mut LinkedBytes, s: FastStr)
    ensures
        lb_committed(*final(lb)) == lb_committed(*old(lb)) + lb_tail(*old(lb)) + fs_view(s),
        lb_tail(*final(lb)) == Seq::<u8>::empty(),
{
    lb.insert_faststr(s);
}

} // verus!
