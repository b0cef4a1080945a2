//! The zero-copy buffer reader: position-tracked reads out of an owned
//! buffer. Fixed-width scalars are loaded big-endian at the cursor; a
//! bytes or string payload at or above the zero-copy threshold is detached
//! from the buffer as an independently owned, reference-counted slice
//! instead of copied, after which the cursor restarts on the remainder.
//!
//! Preconditions state the caller's obligation that length prefixes found
//! on the wire are consistent with the remaining buffer; text payloads are
//! checked for validity and rejected as invalid data rather than trusted.
use vstd::prelude::*;
use vstd::utf8::encode_utf8;
use vstd::utf8::valid_utf8;
use crate::protocol::TBinaryProtocol;
use crate::transport::bm_advance;
use crate::transport::bm_copy_range;
use crate::transport::bm_get;
use crate::transport::bm_len;
use crate::transport::bm_read_arr16;
use crate::transport::bm_split_to_freeze;
use crate::transport::bm_view;
use crate::transport::bytes_view;
use crate::transport::fs_from_bytes;
use crate::transport::fs_from_string;
use crate::transport::fs_view;
use crate::transport::string_from_utf8;
use crate::types::spec_type_from_u8;
use crate::types::spec_validate_version;
use crate::types::validate_message_version;
use crate::types::DecodeError;
use crate::types::DecodeErrorKind;
use crate::types::TFieldIdentifier;
use crate::types::TListIdentifier;
use crate::types::TMapIdentifier;
use crate::types::TMessageIdentifier;
use crate::types::TSetIdentifier;
use crate::types::TStructIdentifier;
use crate::types::TType;
use crate::wire::be16_of;
use crate::wire::be32_of;
use crate::wire::be64_of;
use crate::wire::u16_from_be;
use crate::wire::u32_from_be;
use crate::wire::u64_from_be;
use crate::ZERO_COPY_THRESHOLD;
use bytes::Bytes;
use bytes::BytesMut;
use faststr::FastStr;

verus! {

/// The signed 32-bit length prefix found at offset `i` of `s`.
pub open spec fn read_len_at(s: Seq<u8>, i: int) -> int {
    be32_of(s.subrange(i, i + 4)) as i32 as int
}

impl TBinaryProtocol<BytesMut> {
    /// The buffer is untouched and the cursor moved forward by `n`.
    pub open spec fn advanced(self, o: TBinaryProtocol<BytesMut>, n: int) -> bool {
        &&& self.trans == o.trans
        &&& self.index == o.index + n
        &&& self.zero_copy == o.zero_copy
        &&& self.zero_copy_len == o.zero_copy_len
    }

    /// The first `n` bytes up from the old cursor were consumed out of the
    /// buffer itself and the cursor restarted at zero.
    pub open spec fn consumed(self, o: TBinaryProtocol<BytesMut>, n: int) -> bool {
        &&& bm_view(self.trans) == bm_view(o.trans).skip(o.index + n)
        &&& self.index == 0
        &&& self.zero_copy == o.zero_copy
        &&& self.zero_copy_len == o.zero_copy_len
    }

    pub fn read_message_begin(&mut self) -> (res: Result<TMessageIdentifier, DecodeError>)
        requires
            old(self).index + 4 <= bm_view(old(self).trans).len(),
            spec_validate_version(
                be32_of(
                    bm_view(old(self).trans).subrange(
                        old(self).index as int,
                        old(self).index + 4,
                    ),
                ) as i32,
            ) is Ok ==> {
                &&& old(self).index + 8 <= bm_view(old(self).trans).len()
                &&& read_len_at(bm_view(old(self).trans), old(self).index + 4) >= 0
                &&& old(self).index + 8 + read_len_at(bm_view(old(self).trans), old(self).index + 4)
                    + 4 <= bm_view(old(self).trans).len()
            },
        ensures
            ({
                let s = bm_view(old(self).trans);
                let i = old(self).index as int;
                let hdr = spec_validate_version(be32_of(s.subrange(i, i + 4)) as i32);
                let n = read_len_at(s, i + 4);
                let name_bytes = s.subrange(i + 8, i + 8 + n);
                let seq = be32_of(s.subrange(i + 8 + n, i + 12 + n)) as i32;
                match hdr {
                    Err(k) => res matches Err(e) && e.kind == k && final(self).advanced(
                        *old(self),
                        4,
                    ),
                    Ok(t) => {
                        &&& valid_utf8(name_bytes) ==> {
                            &&& res matches Ok(m)
                            &&& res matches Ok(m) ==> {
                                &&& m.message_type == t
                                &&& fs_view(m.name) == name_bytes
                                &&& m.sequence_number == seq
                            }
                        }
                        &&& !valid_utf8(name_bytes) ==> (res matches Err(e) && e.kind
                            == DecodeErrorKind::InvalidData)
                        &&& n < ZERO_COPY_THRESHOLD ==> final(self).trans == old(self).trans
                            && final(self).zero_copy == old(self).zero_copy && final(self).zero_copy_len == old(self).zero_copy_len && (res is Ok ==> final(self).index == i + 12 + n)
                        &&& n >= ZERO_COPY_THRESHOLD ==> bm_view(final(self).trans) == s.skip(
                            i + 8 + n,
                        ) && (res is Ok ==> final(self).index == 4)
                    },
                }
            }),
    {
        let size = self.read_i32()?;
        let message_type = match validate_message_version(size) {
            Ok(t) => t,
            Err(e) => {
                return Err(e);
            },
        };
        let name = self.read_faststr()?;
        let sequence_number = self.read_i32()?;
        Ok(TMessageIdentifier::new(name, message_type, sequence_number))
    }

    pub fn read_message_end(&mut self) -> (res: Result<(), DecodeError>)
        ensures
            res is Ok,
            *final(self) == *old(self),
    {
        Ok(())
    }

    pub fn read_struct_begin(&mut self) -> (res: Result<Option<TStructIdentifier>, DecodeError>)
        ensures
            res matches Ok(o) && o is None,
            *final(self) == *old(self),
    {
        Ok(None)
    }

    pub fn read_struct_end(&mut self) -> (res: Result<(), DecodeError>)
        ensures
            res is Ok,
            *final(self) == *old(self),
    {
        Ok(())
    }

    pub fn read_field_begin(&mut self) -> (res: Result<TFieldIdentifier, DecodeError>)
        requires
            old(self).index + 1 <= bm_view(old(self).trans).len(),
            ({
                let t = spec_type_from_u8(bm_view(old(self).trans)[old(self).index as int]);
                t is Some && t != Some(TType::Stop) ==> old(self).index + 3 <= bm_view(
                    old(self).trans,
                ).len()
            }),
        ensures
            ({
                let s = bm_view(old(self).trans);
                let i = old(self).index as int;
                match spec_type_from_u8(s[i]) {
                    None => res matches Err(e) && e.kind == DecodeErrorKind::InvalidData && final(self).advanced(*old(self), 1),
                    Some(t) => {
                        if t == TType::Stop {
                            &&& res matches Ok(f)
                            &&& res matches Ok(f) ==> f.field_type == TType::Stop && f.id == Some(
                                0i16,
                            ) && f.name is None
                            &&& final(self).advanced(*old(self), 1)
                        } else {
                            &&& res matches Ok(f)
                            &&& res matches Ok(f) ==> f.field_type == t && f.id == Some(
                                be16_of(s.subrange(i + 1, i + 3)) as i16,
                            ) && f.name is None
                            &&& final(self).advanced(*old(self), 3)
                        }
                    },
                }
            }),
    {
        let field_type_byte = self.read_byte()?;
        let field_type = match crate::types::field_type_from_u8(field_type_byte) {
            Ok(t) => t,
            Err(_) => {
                return Err(
                    DecodeError::new(DecodeErrorKind::InvalidData, "invalid ttype".to_owned()),
                );
            },
        };
        match field_type {
            TType::Stop => Ok(TFieldIdentifier::new(None, TType::Stop, Some(0))),
            _ => {
                let id = self.read_i16()?;
                Ok(TFieldIdentifier::new(None, field_type, Some(id)))
            },
        }
    }

    pub fn read_field_end(&mut self) -> (res: Result<(), DecodeError>)
        ensures
            res is Ok,
            *final(self) == *old(self),
    {
        Ok(())
    }

    pub fn read_bool(&mut self) -> (res: Result<bool, DecodeError>)
        requires
            old(self).index + 1 <= bm_view(old(self).trans).len(),
        ensures
            res matches Ok(v) && v == (bm_view(old(self).trans)[old(self).index as int] != 0),
            final(self).advanced(*old(self), 1),
    {
        let b = self.read_i8()?;
        proof {
            let x = bm_view(old(self).trans)[old(self).index as int];
            assert((x as i8) == 0 <==> x == 0) by (bit_vector);
        }
        match b {
            0 => Ok(false),
            _ => Ok(true),
        }
    }

    /// Reads a length-prefixed bytes payload by detaching it from the
    /// buffer as an independently owned slice, without copying.
    pub fn read_bytes(&mut self) -> (res: Result<Bytes, DecodeError>)
        requires
            old(self).index + 4 <= bm_view(old(self).trans).len(),
            read_len_at(bm_view(old(self).trans), old(self).index as int) >= 0,
            old(self).index + 4 + read_len_at(bm_view(old(self).trans), old(self).index as int)
                <= bm_view(old(self).trans).len(),
        ensures
            ({
                let s = bm_view(old(self).trans);
                let i = old(self).index as int;
                let n = read_len_at(s, i);
                &&& res matches Ok(b) && bytes_view(b) == s.subrange(i + 4, i + 4 + n)
                &&& final(self).consumed(*old(self), 4 + n)
            }),
    {
        let len = self.read_i32()?;
        let len_u = len as usize;
        bm_advance(&mut self.trans, self.index);
        self.index = 0;
        let val = bm_split_to_freeze(&mut self.trans, len_u);
        proof {
            let s = bm_view(old(self).trans);
            let i = old(self).index as int;
            let n = read_len_at(s, i);
            assert(bytes_view(val) =~= s.subrange(i + 4, i + 4 + n));
            assert(bm_view(self.trans) =~= s.skip(i + 4 + n));
        }
        Ok(val)
    }

    pub fn read_uuid(&mut self) -> (res: Result<[u8; 16], DecodeError>)
        requires
            old(self).index + 16 <= bm_view(old(self).trans).len(),
        ensures
            res matches Ok(u) && u@ == bm_view(old(self).trans).subrange(
                old(self).index as int,
                old(self).index + 16,
            ),
            final(self).advanced(*old(self), 16),
    {
        // the buffer length, a machine word, bounds the cursor arithmetic
        let _total = bm_len(&self.trans);
        let u = bm_read_arr16(&self.trans, self.index);
        self.index = self.index + 16;
        Ok(u)
    }

    pub fn read_i8(&mut self) -> (res: Result<i8, DecodeError>)
        requires
            old(self).index + 1 <= bm_view(old(self).trans).len(),
        ensures
            res matches Ok(v) && v == bm_view(old(self).trans)[old(self).index as int] as i8,
            final(self).advanced(*old(self), 1),
    {
        // the buffer length, a machine word, bounds the cursor arithmetic
        let _total = bm_len(&self.trans);
        let val = #[verifier::truncate] (bm_get(&self.trans, self.index) as i8);
        self.index = self.index + 1;
        Ok(val)
    }

    pub fn read_i16(&mut self) -> (res: Result<i16, DecodeError>)
        requires
            old(self).index + 2 <= bm_view(old(self).trans).len(),
        ensures
            res matches Ok(v) && v == be16_of(
                bm_view(old(self).trans).subrange(old(self).index as int, old(self).index + 2),
            ) as i16,
            final(self).advanced(*old(self), 2),
    {
        // the buffer length, a machine word, bounds the cursor arithmetic
        let _total = bm_len(&self.trans);
        let b0 = bm_get(&self.trans, self.index);
        let b1 = bm_get(&self.trans, self.index + 1);
        let v = u16_from_be(b0, b1);
        self.index = self.index + 2;
        proof {
            assert(seq![b0, b1] =~= bm_view(old(self).trans).subrange(
                old(self).index as int,
                old(self).index + 2,
            ));
        }
        Ok(#[verifier::truncate] (v as i16))
    }

    pub fn read_i32(&mut self) -> (res: Result<i32, DecodeError>)
        requires
            old(self).index + 4 <= bm_view(old(self).trans).len(),
        ensures
            res matches Ok(v) && v == be32_of(
                bm_view(old(self).trans).subrange(old(self).index as int, old(self).index + 4),
            ) as i32,
            final(self).advanced(*old(self), 4),
    {
        // the buffer length, a machine word, bounds the cursor arithmetic
        let _total = bm_len(&self.trans);
        let b0 = bm_get(&self.trans, self.index);
        let b1 = bm_get(&self.trans, self.index + 1);
        let b2 = bm_get(&self.trans, self.index + 2);
        let b3 = bm_get(&self.trans, self.index + 3);
        let v = u32_from_be(b0, b1, b2, b3);
        self.index = self.index + 4;
        proof {
            assert(seq![b0, b1, b2, b3] =~= bm_view(old(self).trans).subrange(
                old(self).index as int,
                old(self).index + 4,
            ));
        }
        Ok(#[verifier::truncate] (v as i32))
    }

    pub fn read_i64(&mut self) -> (res: Result<i64, DecodeError>)
        requires
            old(self).index + 8 <= bm_view(old(self).trans).len(),
        ensures
            res matches Ok(v) && v == be64_of(
                bm_view(old(self).trans).subrange(old(self).index as int, old(self).index + 8),
            ) as i64,
            final(self).advanced(*old(self), 8),
    {
        let v = self.read_u64_bits()?;
        Ok(#[verifier::truncate] (v as i64))
    }

    /// Reads a double value as its 64-bit big-endian bit pattern.
    pub fn read_double(&mut self) -> (res: Result<u64, DecodeError>)
        requires
            old(self).index + 8 <= bm_view(old(self).trans).len(),
        ensures
            res matches Ok(v) && v == be64_of(
                bm_view(old(self).trans).subrange(old(self).index as int, old(self).index + 8),
            ),
            final(self).advanced(*old(self), 8),
    {
        self.read_u64_bits()
    }

    fn read_u64_bits(&mut self) -> (res: Result<u64, DecodeError>)
        requires
            old(self).index + 8 <= bm_view(old(self).trans).len(),
        ensures
            res matches Ok(v) && v == be64_of(
                bm_view(old(self).trans).subrange(old(self).index as int, old(self).index + 8),
            ),
            final(self).advanced(*old(self), 8),
    {
        // the buffer length, a machine word, bounds the cursor arithmetic
        let _total = bm_len(&self.trans);
        let v8 = bm_copy_range(&self.trans, self.index, 8);
        let v = u64_from_be(v8.as_slice());
        self.index = self.index + 8;
        Ok(v)
    }

    /// Reads a length-prefixed text payload, copying it out of the buffer.
    /// Invalid UTF-8 is reported as invalid data rather than trusted.
    pub fn read_string(&mut self) -> (res: Result<String, DecodeError>)
        requires
            old(self).index + 4 <= bm_view(old(self).trans).len(),
            read_len_at(bm_view(old(self).trans), old(self).index as int) >= 0,
            old(self).index + 4 + read_len_at(bm_view(old(self).trans), old(self).index as int)
                <= bm_view(old(self).trans).len(),
        ensures
            ({
                let s = bm_view(old(self).trans);
                let i = old(self).index as int;
                let n = read_len_at(s, i);
                let payload = s.subrange(i + 4, i + 4 + n);
                &&& final(self).advanced(*old(self), 4 + n)
                &&& valid_utf8(payload) ==> (res matches Ok(v) && encode_utf8(v@) == payload)
                &&& !valid_utf8(payload) ==> (res matches Err(e) && e.kind
                    == DecodeErrorKind::InvalidData)
            }),
    {
        let len = self.read_i32()?;
        let len_u = len as usize;
        // the buffer length, a machine word, bounds the cursor arithmetic
        let _total = bm_len(&self.trans);
        let v = bm_copy_range(&self.trans, self.index, len_u);
        self.index = self.index + len_u;
        match string_from_utf8(v) {
            Some(s) => Ok(s),
            None => Err(DecodeError::new(DecodeErrorKind::InvalidData, "invalid utf8".to_owned())),
        }
    }

    /// Reads a length-prefixed text payload. At or above the zero-copy
    /// threshold the payload is detached from the buffer by reference;
    /// below it, the bytes are copied. Invalid UTF-8 is reported as
    /// invalid data rather than trusted.
    pub fn read_faststr(&mut self) -> (res: Result<FastStr, DecodeError>)
        requires
            old(self).index + 4 <= bm_view(old(self).trans).len(),
            read_len_at(bm_view(old(self).trans), old(self).index as int) >= 0,
            old(self).index + 4 + read_len_at(bm_view(old(self).trans), old(self).index as int)
                <= bm_view(old(self).trans).len(),
        ensures
            ({
                let s = bm_view(old(self).trans);
                let i = old(self).index as int;
                let n = read_len_at(s, i);
                let payload = s.subrange(i + 4, i + 4 + n);
                &&& valid_utf8(payload) ==> (res matches Ok(f) && fs_view(f) == payload)
                &&& !valid_utf8(payload) ==> (res matches Err(e) && e.kind
                    == DecodeErrorKind::InvalidData)
                &&& n >= ZERO_COPY_THRESHOLD ==> final(self).consumed(*old(self), 4 + n)
                &&& n < ZERO_COPY_THRESHOLD ==> final(self).advanced(*old(self), 4 + n)
            }),
    {
        let len = self.read_i32()?;
        let len_u = len as usize;
        if len_u >= ZERO_COPY_THRESHOLD {
            bm_advance(&mut self.trans, self.index);
            self.index = 0;
            let bytes = bm_split_to_freeze(&mut self.trans, len_u);
            proof {
                let s = bm_view(old(self).trans);
                let i = old(self).index as int;
                let n = read_len_at(s, i);
                assert(bytes_view(bytes) =~= s.subrange(i + 4, i + 4 + n));
                assert(bm_view(self.trans) =~= s.skip(i + 4 + n));
            }
            return match fs_from_bytes(bytes) {
                Some(f) => Ok(f),
                None => Err(
                    DecodeError::new(DecodeErrorKind::InvalidData, "invalid utf8".to_owned()),
                ),
            };
        }
        // the buffer length, a machine word, bounds the cursor arithmetic
        let _total = bm_len(&self.trans);
        let v = bm_copy_range(&self.trans, self.index, len_u);
        self.index = self.index + len_u;
        match string_from_utf8(v) {
            Some(s) => Ok(fs_from_string(s)),
            None => Err(DecodeError::new(DecodeErrorKind::InvalidData, "invalid utf8".to_owned())),
        }
    }

    pub fn read_list_begin(&mut self) -> (res: Result<TListIdentifier, DecodeError>)
        requires
            old(self).index + 1 <= bm_view(old(self).trans).len(),
            spec_type_from_u8(bm_view(old(self).trans)[old(self).index as int]) is Some ==> {
                &&& old(self).index + 5 <= bm_view(old(self).trans).len()
                &&& read_len_at(bm_view(old(self).trans), old(self).index + 1) >= 0
            },
        ensures
            ({
                let s = bm_view(old(self).trans);
                let i = old(self).index as int;
                match spec_type_from_u8(s[i]) {
                    None => res matches Err(e) && e.kind == DecodeErrorKind::InvalidData && final(self).advanced(*old(self), 1),
                    Some(t) => {
                        &&& res matches Ok(l)
                        &&& res matches Ok(l) ==> l.element_type == t && l.size == read_len_at(
                            s,
                            i + 1,
                        )
                        &&& final(self).advanced(*old(self), 5)
                    },
                }
            }),
    {
        let b = self.read_byte()?;
        let element_type = match crate::types::field_type_from_u8(b) {
            Ok(t) => t,
            Err(_) => {
                return Err(
                    DecodeError::new(DecodeErrorKind::InvalidData, "invalid ttype".to_owned()),
                );
            },
        };
        let size = self.read_i32()?;
        Ok(TListIdentifier::new(element_type, size as usize))
    }

    pub fn read_list_end(&mut self) -> (res: Result<(), DecodeError>)
        ensures
            res is Ok,
            *final(self) == *old(self),
    {
        Ok(())
    }

    pub fn read_set_begin(&mut self) -> (res: Result<TSetIdentifier, DecodeError>)
        requires
            old(self).index + 1 <= bm_view(old(self).trans).len(),
            spec_type_from_u8(bm_view(old(self).trans)[old(self).index as int]) is Some ==> {
                &&& old(self).index + 5 <= bm_view(old(self).trans).len()
                &&& read_len_at(bm_view(old(self).trans), old(self).index + 1) >= 0
            },
        ensures
            ({
                let s = bm_view(old(self).trans);
                let i = old(self).index as int;
                match spec_type_from_u8(s[i]) {
                    None => res matches Err(e) && e.kind == DecodeErrorKind::InvalidData && final(self).advanced(*old(self), 1),
                    Some(t) => {
                        &&& res matches Ok(l)
                        &&& res matches Ok(l) ==> l.element_type == t && l.size == read_len_at(
                            s,
                            i + 1,
                        )
                        &&& final(self).advanced(*old(self), 5)
                    },
                }
            }),
    {
        let b = self.read_byte()?;
        let element_type = match crate::types::field_type_from_u8(b) {
            Ok(t) => t,
            Err(_) => {
                return Err(
                    DecodeError::new(DecodeErrorKind::InvalidData, "invalid ttype".to_owned()),
                );
            },
        };
        let size = self.read_i32()?;
        Ok(TSetIdentifier::new(element_type, size as usize))
    }

    pub fn read_set_end(&mut self) -> (res: Result<(), DecodeError>)
        ensures
            res is Ok,
            *final(self) == *old(self),
    {
        Ok(())
    }

    pub fn read_map_begin(&mut self) -> (res: Result<TMapIdentifier, DecodeError>)
        requires
            old(self).index + 1 <= bm_view(old(self).trans).len(),
            spec_type_from_u8(bm_view(old(self).trans)[old(self).index as int]) is Some ==> old(
                self,
            ).index + 2 <= bm_view(old(self).trans).len(),
            spec_type_from_u8(bm_view(old(self).trans)[old(self).index as int]) is Some
                && spec_type_from_u8(bm_view(old(self).trans)[old(self).index + 1]) is Some ==> {
                &&& old(self).index + 6 <= bm_view(old(self).trans).len()
                &&& read_len_at(bm_view(old(self).trans), old(self).index + 2) >= 0
            },
        ensures
            ({
                let s = bm_view(old(self).trans);
                let i = old(self).index as int;
                match spec_type_from_u8(s[i]) {
                    None => res matches Err(e) && e.kind == DecodeErrorKind::InvalidData && final(self).advanced(*old(self), 1),
                    Some(kt) => match spec_type_from_u8(s[i + 1]) {
                        None => res matches Err(e) && e.kind == DecodeErrorKind::InvalidData
                            && final(self).advanced(*old(self), 2),
                        Some(vt) => {
                            &&& res matches Ok(m)
                            &&& res matches Ok(m) ==> m.key_type == kt && m.value_type == vt
                                && m.size == read_len_at(s, i + 2)
                            &&& final(self).advanced(*old(self), 6)
                        },
                    },
                }
            }),
    {
        let kb = self.read_byte()?;
        let key_type = match crate::types::field_type_from_u8(kb) {
            Ok(t) => t,
            Err(_) => {
                return Err(
                    DecodeError::new(DecodeErrorKind::InvalidData, "invalid ttype".to_owned()),
                );
            },
        };
        let vb = self.read_byte()?;
        let value_type = match crate::types::field_type_from_u8(vb) {
            Ok(t) => t,
            Err(_) => {
                return Err(
                    DecodeError::new(DecodeErrorKind::InvalidData, "invalid ttype".to_owned()),
                );
            },
        };
        let size = self.read_i32()?;
        Ok(TMapIdentifier::new(key_type, value_type, size as usize))
    }

    pub fn read_map_end(&mut self) -> (res: Result<(), DecodeError>)
        ensures
            res is Ok,
            *final(self) == *old(self),
    {
        Ok(())
    }

    pub fn read_byte(&mut self) -> (res: Result<u8, DecodeError>)
        requires
            old(self).index + 1 <= bm_view(old(self).trans).len(),
        ensures
            res matches Ok(v) && v == bm_view(old(self).trans)[old(self).index as int],
            final(self).advanced(*old(self), 1),
    {
        // the buffer length, a machine word, bounds the cursor arithmetic
        let _total = bm_len(&self.trans);
        let val = bm_get(&self.trans, self.index);
        self.index = self.index + 1;
        Ok(val)
    }

    /// Reads a length-prefixed bytes payload by consuming and copying it
    /// out of the buffer.
    pub fn read_bytes_vec(&mut self) -> (res: Result<Vec<u8>, DecodeError>)
        requires
            old(self).index + 4 <= bm_view(old(self).trans).len(),
            read_len_at(bm_view(old(self).trans), old(self).index as int) >= 0,
            old(self).index + 4 + read_len_at(bm_view(old(self).trans), old(self).index as int)
                <= bm_view(old(self).trans).len(),
        ensures
            ({
                let s = bm_view(old(self).trans);
                let i = old(self).index as int;
                let n = read_len_at(s, i);
                &&& res matches Ok(v) && v@ == s.subrange(i + 4, i + 4 + n)
                &&& final(self).consumed(*old(self), 4 + n)
            }),
    {
        let len = self.read_i32()?;
        let len_u = len as usize;
        bm_advance(&mut self.trans, self.index);
        self.index = 0;
        let val = bm_copy_range(&self.trans, 0, len_u);
        bm_advance(&mut self.trans, len_u);
        proof {
            let s = bm_view(old(self).trans);
            let i = old(self).index as int;
            let n = read_len_at(s, i);
            assert(val@ =~= s.subrange(i + 4, i + 4 + n));
            assert(bm_view(self.trans) =~= s.skip(i + 4 + n));
        }
        Ok(val)
    }
}

} // verus!
