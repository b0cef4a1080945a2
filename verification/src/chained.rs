//! The chained-buffer writer: same wire encoding as the contiguous writer,
//! but a string or bytes payload at or above the zero-copy threshold is
//! spliced into the chain by reference instead of copied. The splice
//! commits the written prefix of the current tail to the segment list and
//! restarts the cursor on the fresh, empty tail.
use vstd::prelude::*;
use vstd::string::StringSliceAdditionalSpecFns;
use vstd::utf8::valid_utf8;
use crate::protocol::TBinaryProtocol;
use crate::transport::bytes_as_slice;
use crate::transport::bytes_len;
use crate::transport::bytes_view;
use crate::transport::fs_as_bytes;
use crate::transport::fs_len;
use crate::transport::fs_view;
use crate::transport::lb_committed;
use crate::transport::lb_insert;
use crate::transport::lb_insert_faststr;
use crate::transport::lb_tail;
use crate::transport::lb_tail_len;
use crate::transport::lb_tail_put_slice;
use crate::types::EncodeError;
use crate::types::TListIdentifier;
use crate::types::TMapIdentifier;
use crate::types::TMessageIdentifier;
use crate::types::TSetIdentifier;
use crate::types::TStructIdentifier;
use crate::types::TType;
use crate::types::VERSION_1;
use crate::wire::be16;
use crate::wire::be32;
use crate::wire::be64;
use crate::wire::bool_byte;
use crate::wire::collection_begin_bytes;
use crate::wire::field_begin_bytes;
use crate::wire::length_prefixed;
use crate::wire::lemma_len_cast;
use crate::wire::lemma_u32_cast_roundtrip;
use crate::wire::map_begin_bytes;
use crate::wire::message_begin_bytes;
use crate::wire::u16_to_be;
use crate::wire::u32_to_be;
use crate::wire::u64_to_be;
use crate::ZERO_COPY_THRESHOLD;
use bytes::Bytes;
use faststr::FastStr;
use linkedbytes::LinkedBytes;

verus! {

impl TBinaryProtocol<LinkedBytes> {
    /// The cursor tracks the end of the written region of the current tail.
    pub open spec fn chain_wf(self) -> bool {
        self.index == lb_tail(self.trans).len()
    }

    /// The bytes the chain stands for so far: the committed segments
    /// followed by the written prefix of the current tail.
    pub open spec fn chain_out(self) -> Seq<u8> {
        lb_committed(self.trans) + lb_tail(self.trans)
    }

    /// Exactly the bytes `s` were copied onto the current tail; the
    /// segment list, the cursor relation and the zero-copy state follow.
    pub open spec fn chain_appended(self, o: TBinaryProtocol<LinkedBytes>, s: Seq<u8>) -> bool {
        &&& lb_committed(self.trans) == lb_committed(o.trans)
        &&& lb_tail(self.trans) == lb_tail(o.trans) + s
        &&& self.index == o.index + s.len()
        &&& self.zero_copy == o.zero_copy
        &&& self.zero_copy_len == o.zero_copy_len
    }

    pub fn write_message_begin(&mut self, identifier: &TMessageIdentifier) -> (res: Result<
        (),
        EncodeError,
    >)
        requires
            old(self).chain_wf(),
            fs_view(identifier.name).len() <= 0x7fffffff,
        ensures
            res is Ok,
            final(self).chain_wf(),
            final(self).chain_out() == old(self).chain_out() + message_begin_bytes(
                identifier.message_type,
                fs_view(identifier.name),
                identifier.sequence_number,
            ),
            final(self).zero_copy == old(self).zero_copy,
            final(self).zero_copy_len == old(self).zero_copy_len,
            valid_utf8(fs_view(identifier.name)),
    {
        let msg_type_u8: u8 = identifier.message_type.code();
        let version = #[verifier::truncate] ((VERSION_1 | msg_type_u8 as u32) as i32);
        proof {
            lemma_u32_cast_roundtrip(VERSION_1 | identifier.message_type.spec_code() as u32);
        }
        self.write_i32(version)?;
        self.write_faststr(identifier.name.clone())?;
        self.write_i32(identifier.sequence_number)?;
        proof {
            assert(final(self).chain_out() =~= old(self).chain_out() + message_begin_bytes(
                identifier.message_type,
                fs_view(identifier.name),
                identifier.sequence_number,
            ));
        }
        Ok(())
    }

    pub fn write_message_end(&mut self) -> (res: Result<(), EncodeError>)
        ensures
            res is Ok,
            *final(self) == *old(self),
    {
        Ok(())
    }

    pub fn write_struct_begin(&mut self, _identifier: &TStructIdentifier) -> (res: Result<
        (),
        EncodeError,
    >)
        ensures
            res is Ok,
            *final(self) == *old(self),
    {
        Ok(())
    }

    pub fn write_struct_end(&mut self) -> (res: Result<(), EncodeError>)
        ensures
            res is Ok,
            *final(self) == *old(self),
    {
        Ok(())
    }

    pub fn write_field_begin(&mut self, field_type: TType, id: i16) -> (res: Result<
        (),
        EncodeError,
    >)
        requires
            old(self).chain_wf(),
        ensures
            res is Ok,
            final(self).chain_wf(),
            final(self).chain_appended(*old(self), field_begin_bytes(field_type, id)),
    {
        self.write_byte(field_type.code())?;
        self.write_i16(id)?;
        proof {
            assert(lb_tail(self.trans) =~= lb_tail(old(self).trans) + field_begin_bytes(
                field_type,
                id,
            ));
        }
        Ok(())
    }

    pub fn write_field_end(&mut self) -> (res: Result<(), EncodeError>)
        ensures
            res is Ok,
            *final(self) == *old(self),
    {
        Ok(())
    }

    pub fn write_field_stop(&mut self) -> (res: Result<(), EncodeError>)
        requires
            old(self).chain_wf(),
        ensures
            res is Ok,
            final(self).chain_wf(),
            final(self).chain_appended(*old(self), seq![TType::Stop.spec_code()]),
    {
        self.write_byte(TType::Stop.code())
    }

    pub fn write_bool(&mut self, b: bool) -> (res: Result<(), EncodeError>)
        requires
            old(self).chain_wf(),
        ensures
            res is Ok,
            final(self).chain_wf(),
            final(self).chain_appended(*old(self), seq![bool_byte(b)]),
    {
        if b {
            self.write_i8(1)
        } else {
            self.write_i8(0)
        }
    }

    /// Writes a length-prefixed bytes payload. At or above the zero-copy
    /// threshold (with zero-copy enabled) the payload is spliced into the
    /// chain by reference: the tail written so far, including the length
    /// prefix just emitted, is committed, and the cursor restarts at zero
    /// on the fresh tail. Below the threshold the payload is copied.
    pub fn write_bytes(&mut self, b: Bytes) -> (res: Result<(), EncodeError>)
        requires
            old(self).chain_wf(),
            bytes_view(b).len() <= 0x7fffffff,
        ensures
            res is Ok,
            final(self).chain_wf(),
            final(self).chain_out() == old(self).chain_out() + length_prefixed(bytes_view(b)),
            final(self).zero_copy == old(self).zero_copy,
            final(self).zero_copy_len == old(self).zero_copy_len,
            old(self).zero_copy && bytes_view(b).len() >= ZERO_COPY_THRESHOLD ==> {
                &&& lb_tail(final(self).trans) == Seq::<u8>::empty()
                &&& final(self).index == 0
            },
            !(old(self).zero_copy && bytes_view(b).len() >= ZERO_COPY_THRESHOLD) ==> final(self).chain_appended(*old(self), length_prefixed(bytes_view(b))),
    {
        let n = bytes_len(&b);
        proof {
            lemma_len_cast(n);
        }
        self.write_i32(n as i32)?;
        if self.zero_copy && n >= ZERO_COPY_THRESHOLD {
            lb_insert(&mut self.trans, b);
            self.index = 0;
            proof {
                assert(final(self).chain_out() =~= old(self).chain_out() + length_prefixed(
                    bytes_view(b),
                ));
            }
            return Ok(());
        }
        lb_tail_put_slice(&mut self.trans, bytes_as_slice(&b));
        self.index = lb_tail_len(&self.trans);
        proof {
            assert(lb_tail(self.trans) =~= lb_tail(old(self).trans) + length_prefixed(
                bytes_view(b),
            ));
            assert(final(self).chain_out() =~= old(self).chain_out() + length_prefixed(
                bytes_view(b),
            ));
        }
        Ok(())
    }

    pub fn write_byte(&mut self, b: u8) -> (res: Result<(), EncodeError>)
        requires
            old(self).chain_wf(),
        ensures
            res is Ok,
            final(self).chain_wf(),
            final(self).chain_appended(*old(self), seq![b]),
    {
        let arr = [b];
        lb_tail_put_slice(&mut self.trans, arr.as_slice());
        self.index = lb_tail_len(&self.trans);
        proof {
            assert(lb_tail(self.trans) =~= lb_tail(old(self).trans) + seq![b]);
        }
        Ok(())
    }

    pub fn write_uuid(&mut self, u: [u8; 16]) -> (res: Result<(), EncodeError>)
        requires
            old(self).chain_wf(),
        ensures
            res is Ok,
            final(self).chain_wf(),
            final(self).chain_appended(*old(self), u@),
    {
        lb_tail_put_slice(&mut self.trans, u.as_slice());
        self.index = lb_tail_len(&self.trans);
        Ok(())
    }

    pub fn write_i8(&mut self, i: i8) -> (res: Result<(), EncodeError>)
        requires
            old(self).chain_wf(),
        ensures
            res is Ok,
            final(self).chain_wf(),
            final(self).chain_appended(*old(self), seq![i as u8]),
    {
        let arr = [#[verifier::truncate] (i as u8)];
        lb_tail_put_slice(&mut self.trans, arr.as_slice());
        self.index = lb_tail_len(&self.trans);
        proof {
            assert(lb_tail(self.trans) =~= lb_tail(old(self).trans) + seq![i as u8]);
        }
        Ok(())
    }

    pub fn write_i16(&mut self, i: i16) -> (res: Result<(), EncodeError>)
        requires
            old(self).chain_wf(),
        ensures
            res is Ok,
            final(self).chain_wf(),
            final(self).chain_appended(*old(self), be16(i as u16)),
    {
        let arr = u16_to_be(#[verifier::truncate] (i as u16));
        lb_tail_put_slice(&mut self.trans, arr.as_slice());
        self.index = lb_tail_len(&self.trans);
        Ok(())
    }

    pub fn write_i32(&mut self, i: i32) -> (res: Result<(), EncodeError>)
        requires
            old(self).chain_wf(),
        ensures
            res is Ok,
            final(self).chain_wf(),
            final(self).chain_appended(*old(self), be32(i as u32)),
    {
        let arr = u32_to_be(#[verifier::truncate] (i as u32));
        lb_tail_put_slice(&mut self.trans, arr.as_slice());
        self.index = lb_tail_len(&self.trans);
        Ok(())
    }

    pub fn write_i64(&mut self, i: i64) -> (res: Result<(), EncodeError>)
        requires
            old(self).chain_wf(),
        ensures
            res is Ok,
            final(self).chain_wf(),
            final(self).chain_appended(*old(self), be64(i as u64)),
    {
        let arr = u64_to_be(#[verifier::truncate] (i as u64));
        lb_tail_put_slice(&mut self.trans, arr.as_slice());
        self.index = lb_tail_len(&self.trans);
        Ok(())
    }

    /// Writes a double value, carried as its 64-bit big-endian bit pattern.
    pub fn write_double(&mut self, d: u64) -> (res: Result<(), EncodeError>)
        requires
            old(self).chain_wf(),
        ensures
            res is Ok,
            final(self).chain_wf(),
            final(self).chain_appended(*old(self), be64(d)),
    {
        let arr = u64_to_be(d);
        lb_tail_put_slice(&mut self.trans, arr.as_slice());
        self.index = lb_tail_len(&self.trans);
        Ok(())
    }

    pub fn write_string(&mut self, s: &str) -> (res: Result<(), EncodeError>)
        requires
            old(self).chain_wf(),
            s.spec_bytes().len() <= 0x7fffffff,
        ensures
            res is Ok,
            final(self).chain_wf(),
            final(self).chain_appended(*old(self), length_prefixed(s.spec_bytes())),
    {
        let n = s.len();
        proof {
            lemma_len_cast(n);
        }
        self.write_i32(n as i32)?;
        lb_tail_put_slice(&mut self.trans, s.as_bytes());
        self.index = lb_tail_len(&self.trans);
        proof {
            assert(lb_tail(self.trans) =~= lb_tail(old(self).trans) + length_prefixed(
                s.spec_bytes(),
            ));
        }
        Ok(())
    }

    /// Writes a length-prefixed string payload, splicing it into the chain
    /// by reference at or above the zero-copy threshold, as `write_bytes`
    /// does.
    pub fn write_faststr(&mut self, s: FastStr) -> (res: Result<(), EncodeError>)
        requires
            old(self).chain_wf(),
            fs_view(s).len() <= 0x7fffffff,
        ensures
            res is Ok,
            final(self).chain_wf(),
            final(self).chain_out() == old(self).chain_out() + length_prefixed(fs_view(s)),
            final(self).zero_copy == old(self).zero_copy,
            final(self).zero_copy_len == old(self).zero_copy_len,
            old(self).zero_copy && fs_view(s).len() >= ZERO_COPY_THRESHOLD ==> {
                &&& lb_tail(final(self).trans) == Seq::<u8>::empty()
                &&& final(self).index == 0
            },
            !(old(self).zero_copy && fs_view(s).len() >= ZERO_COPY_THRESHOLD) ==> final(self).chain_appended(*old(self), length_prefixed(fs_view(s))),
            valid_utf8(fs_view(s)),
    {
        let n = fs_len(&s);
        proof {
            lemma_len_cast(n);
        }
        self.write_i32(n as i32)?;
        // taking the bytes out here also records that they are valid UTF-8,
        // which the contract states of both paths
        let contents = fs_as_bytes(&s);
        if self.zero_copy && n >= ZERO_COPY_THRESHOLD {
            lb_insert_faststr(&mut self.trans, s);
            self.index = 0;
            proof {
                assert(final(self).chain_out() =~= old(self).chain_out() + length_prefixed(
                    fs_view(s),
                ));
            }
            return Ok(());
        }
        lb_tail_put_slice(&mut self.trans, contents);
        self.index = lb_tail_len(&self.trans);
        proof {
            assert(lb_tail(self.trans) =~= lb_tail(old(self).trans) + length_prefixed(
                fs_view(s),
            ));
            assert(final(self).chain_out() =~= old(self).chain_out() + length_prefixed(
                fs_view(s),
            ));
        }
        Ok(())
    }

    pub fn write_list_begin(&mut self, identifier: TListIdentifier) -> (res: Result<
        (),
        EncodeError,
    >)
        requires
            old(self).chain_wf(),
            identifier.size <= 0x7fffffff,
        ensures
            res is Ok,
            final(self).chain_wf(),
            final(self).chain_appended(
                *old(self),
                collection_begin_bytes(identifier.element_type, identifier.size),
            ),
    {
        self.write_byte(identifier.element_type.code())?;
        proof {
            lemma_len_cast(identifier.size);
        }
        self.write_i32(identifier.size as i32)?;
        proof {
            assert(lb_tail(self.trans) =~= lb_tail(old(self).trans) + collection_begin_bytes(
                identifier.element_type,
                identifier.size,
            ));
        }
        Ok(())
    }

    pub fn write_list_end(&mut self) -> (res: Result<(), EncodeError>)
        ensures
            res is Ok,
            *final(self) == *old(self),
    {
        Ok(())
    }

    pub fn write_set_begin(&mut self, identifier: TSetIdentifier) -> (res: Result<
        (),
        EncodeError,
    >)
        requires
            old(self).chain_wf(),
            identifier.size <= 0x7fffffff,
        ensures
            res is Ok,
            final(self).chain_wf(),
            final(self).chain_appended(
                *old(self),
                collection_begin_bytes(identifier.element_type, identifier.size),
            ),
    {
        self.write_byte(identifier.element_type.code())?;
        proof {
            lemma_len_cast(identifier.size);
        }
        self.write_i32(identifier.size as i32)?;
        proof {
            assert(lb_tail(self.trans) =~= lb_tail(old(self).trans) + collection_begin_bytes(
                identifier.element_type,
                identifier.size,
            ));
        }
        Ok(())
    }

    pub fn write_set_end(&mut self) -> (res: Result<(), EncodeError>)
        ensures
            res is Ok,
            *final(self) == *old(self),
    {
        Ok(())
    }

    pub fn write_map_begin(&mut self, identifier: TMapIdentifier) -> (res: Result<
        (),
        EncodeError,
    >)
        requires
            old(self).chain_wf(),
            identifier.size <= 0x7fffffff,
        ensures
            res is Ok,
            final(self).chain_wf(),
            final(self).chain_appended(
                *old(self),
                map_begin_bytes(identifier.key_type, identifier.value_type, identifier.size),
            ),
    {
        let key_type = identifier.key_type;
        self.write_byte(key_type.code())?;
        let val_type = identifier.value_type;
        self.write_byte(val_type.code())?;
        proof {
            lemma_len_cast(identifier.size);
        }
        self.write_i32(identifier.size as i32)?;
        proof {
            assert(lb_tail(self.trans) =~= lb_tail(old(self).trans) + map_begin_bytes(
                identifier.key_type,
                identifier.value_type,
                identifier.size,
            ));
        }
        Ok(())
    }

    pub fn write_map_end(&mut self) -> (res: Result<(), EncodeError>)
        ensures
            res is Ok,
            *final(self) == *old(self),
    {
        Ok(())
    }

    pub fn flush(&mut self) -> (res: Result<(), EncodeError>)
        ensures
            res is Ok,
            *final(self) == *old(self),
    {
        Ok(())
    }

    pub fn write_bytes_vec(&mut self, b: &[u8]) -> (res: Result<(), EncodeError>)
        requires
            old(self).chain_wf(),
            b@.len() <= 0x7fffffff,
        ensures
            res is Ok,
            final(self).chain_wf(),
            final(self).chain_appended(*old(self), length_prefixed(b@)),
    {
        let n = b.len();
        proof {
            lemma_len_cast(n);
        }
        self.write_i32(n as i32)?;
        lb_tail_put_slice(&mut self.trans, b);
        self.index = lb_tail_len(&self.trans);
        proof {
            assert(lb_tail(self.trans) =~= lb_tail(old(self).trans) + length_prefixed(b@));
        }
        Ok(())
    }
}

} // verus!
