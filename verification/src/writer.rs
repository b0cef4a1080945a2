//! The contiguous-buffer writer: serializes into a flat owned buffer,
//! tracking the cursor at the end of the written region. Every payload is
//! physically copied; the zero-copy accounting of the length pass exists
//! for API symmetry only.
//!
//! Every write method's contract states the exact bytes appended, and that
//! the cursor advances by exactly the count the matching `write_<x>_len`
//! method of the length pass returns.
use vstd::prelude::*;
use vstd::string::StringSliceAdditionalSpecFns;
use vstd::utf8::valid_utf8;
use crate::protocol::TBinaryProtocol;
use crate::transport::bm_len;
use crate::transport::bm_put_slice;
use crate::transport::bm_view;
use crate::transport::bytes_as_slice;
use crate::transport::bytes_len;
use crate::transport::bytes_view;
use crate::transport::fs_as_bytes;
use crate::transport::fs_len;
use crate::transport::fs_view;
use crate::types::EncodeError;
use crate::types::TListIdentifier;
use crate::types::TMapIdentifier;
use crate::types::TMessageIdentifier;
use crate::types::TSetIdentifier;
use crate::types::TStructIdentifier;
use crate::types::TType;
use crate::types::VERSION_1;
use crate::wire::be16;
use crate::wire::be32;
use crate::wire::be64;
use crate::wire::bool_byte;
use crate::wire::collection_begin_bytes;
use crate::wire::field_begin_bytes;
use crate::wire::length_prefixed;
use crate::wire::lemma_len_cast;
use crate::wire::lemma_u32_cast_roundtrip;
use crate::wire::map_begin_bytes;
use crate::wire::message_begin_bytes;
use crate::wire::u16_to_be;
use crate::wire::u32_to_be;
use crate::wire::u64_to_be;
use bytes::Bytes;
use bytes::BytesMut;
use faststr::FastStr;

verus! {

impl TBinaryProtocol<BytesMut> {
    /// The cursor tracks the end of the written region.
    pub open spec fn out_wf(self) -> bool {
        self.index == bm_view(self.trans).len()
    }

    /// Exactly the bytes `s` were appended, the cursor advanced by their
    /// count, and the zero-copy state is untouched.
    pub open spec fn appended(self, o: TBinaryProtocol<BytesMut>, s: Seq<u8>) -> bool {
        &&& bm_view(self.trans) == bm_view(o.trans) + s
        &&& self.index == o.index + s.len()
        &&& self.zero_copy == o.zero_copy
        &&& self.zero_copy_len == o.zero_copy_len
    }

    pub fn write_message_begin(&mut self, identifier: &TMessageIdentifier) -> (res: Result<
        (),
        EncodeError,
    >)
        requires
            old(self).out_wf(),
            fs_view(identifier.name).len() <= 0x7fffffff,
        ensures
            res is Ok,
            final(self).out_wf(),
            final(self).appended(
                *old(self),
                message_begin_bytes(
                    identifier.message_type,
                    fs_view(identifier.name),
                    identifier.sequence_number,
                ),
            ),
            valid_utf8(fs_view(identifier.name)),
    {
        let msg_type_u8: u8 = identifier.message_type.code();
        let version = #[verifier::truncate] ((VERSION_1 | msg_type_u8 as u32) as i32);
        proof {
            lemma_u32_cast_roundtrip(VERSION_1 | identifier.message_type.spec_code() as u32);
        }
        self.write_i32(version)?;
        self.write_faststr(identifier.name.clone())?;
        self.write_i32(identifier.sequence_number)?;
        proof {
            assert(bm_view(self.trans) =~= bm_view(old(self).trans) + message_begin_bytes(
                identifier.message_type,
                fs_view(identifier.name),
                identifier.sequence_number,
            ));
        }
        Ok(())
    }

    pub fn write_message_end(&mut self) -> (res: Result<(), EncodeError>)
        ensures
            res is Ok,
            *final(self) == *old(self),
    {
        Ok(())
    }

    pub fn write_struct_begin(&mut self, _identifier: &TStructIdentifier) -> (res: Result<
        (),
        EncodeError,
    >)
        ensures
            res is Ok,
            *final(self) == *old(self),
    {
        Ok(())
    }

    pub fn write_struct_end(&mut self) -> (res: Result<(), EncodeError>)
        ensures
            res is Ok,
            *final(self) == *old(self),
    {
        Ok(())
    }

    pub fn write_field_begin(&mut self, field_type: TType, id: i16) -> (res: Result<
        (),
        EncodeError,
    >)
        requires
            old(self).out_wf(),
        ensures
            res is Ok,
            final(self).out_wf(),
            final(self).appended(*old(self), field_begin_bytes(field_type, id)),
    {
        self.write_byte(field_type.code())?;
        self.write_i16(id)?;
        proof {
            assert(bm_view(self.trans) =~= bm_view(old(self).trans) + field_begin_bytes(
                field_type,
                id,
            ));
        }
        Ok(())
    }

    pub fn write_field_end(&mut self) -> (res: Result<(), EncodeError>)
        ensures
            res is Ok,
            *final(self) == *old(self),
    {
        Ok(())
    }

    pub fn write_field_stop(&mut self) -> (res: Result<(), EncodeError>)
        requires
            old(self).out_wf(),
        ensures
            res is Ok,
            final(self).out_wf(),
            final(self).appended(*old(self), seq![TType::Stop.spec_code()]),
    {
        self.write_byte(TType::Stop.code())
    }

    pub fn write_bool(&mut self, b: bool) -> (res: Result<(), EncodeError>)
        requires
            old(self).out_wf(),
        ensures
            res is Ok,
            final(self).out_wf(),
            final(self).appended(*old(self), seq![bool_byte(b)]),
    {
        if b {
            self.write_i8(1)
        } else {
            self.write_i8(0)
        }
    }

    pub fn write_bytes(&mut self, b: Bytes) -> (res: Result<(), EncodeError>)
        requires
            old(self).out_wf(),
            bytes_view(b).len() <= 0x7fffffff,
        ensures
            res is Ok,
            final(self).out_wf(),
            final(self).appended(*old(self), length_prefixed(bytes_view(b))),
    {
        let n = bytes_len(&b);
        proof {
            lemma_len_cast(n);
        }
        self.write_i32(n as i32)?;
        bm_put_slice(&mut self.trans, bytes_as_slice(&b));
        self.index = bm_len(&self.trans);
        proof {
            assert(bm_view(self.trans) =~= bm_view(old(self).trans) + length_prefixed(
                bytes_view(b),
            ));
        }
        Ok(())
    }

    pub fn write_byte(&mut self, b: u8) -> (res: Result<(), EncodeError>)
        requires
            old(self).out_wf(),
        ensures
            res is Ok,
            final(self).out_wf(),
            final(self).appended(*old(self), seq![b]),
    {
        let arr = [b];
        bm_put_slice(&mut self.trans, arr.as_slice());
        self.index = bm_len(&self.trans);
        proof {
            assert(bm_view(self.trans) =~= bm_view(old(self).trans) + seq![b]);
        }
        Ok(())
    }

    pub fn write_uuid(&mut self, u: [u8; 16]) -> (res: Result<(), EncodeError>)
        requires
            old(self).out_wf(),
        ensures
            res is Ok,
            final(self).out_wf(),
            final(self).appended(*old(self), u@),
    {
        bm_put_slice(&mut self.trans, u.as_slice());
        self.index = bm_len(&self.trans);
        Ok(())
    }

    pub fn write_i8(&mut self, i: i8) -> (res: Result<(), EncodeError>)
        requires
            old(self).out_wf(),
        ensures
            res is Ok,
            final(self).out_wf(),
            final(self).appended(*old(self), seq![i as u8]),
    {
        let arr = [#[verifier::truncate] (i as u8)];
        bm_put_slice(&mut self.trans, arr.as_slice());
        self.index = bm_len(&self.trans);
        proof {
            assert(bm_view(self.trans) =~= bm_view(old(self).trans) + seq![i as u8]);
        }
        Ok(())
    }

    pub fn write_i16(&mut self, i: i16) -> (res: Result<(), EncodeError>)
        requires
            old(self).out_wf(),
        ensures
            res is Ok,
            final(self).out_wf(),
            final(self).appended(*old(self), be16(i as u16)),
    {
        let arr = u16_to_be(#[verifier::truncate] (i as u16));
        bm_put_slice(&mut self.trans, arr.as_slice());
        self.index = bm_len(&self.trans);
        Ok(())
    }

    pub fn write_i32(&mut self, i: i32) -> (res: Result<(), EncodeError>)
        requires
            old(self).out_wf(),
        ensures
            res is Ok,
            final(self).out_wf(),
            final(self).appended(*old(self), be32(i as u32)),
    {
        let arr = u32_to_be(#[verifier::truncate] (i as u32));
        bm_put_slice(&mut self.trans, arr.as_slice());
        self.index = bm_len(&self.trans);
        Ok(())
    }

    pub fn write_i64(&mut self, i: i64) -> (res: Result<(), EncodeError>)
        requires
            old(self).out_wf(),
        ensures
            res is Ok,
            final(self).out_wf(),
            final(self).appended(*old(self), be64(i as u64)),
    {
        let arr = u64_to_be(#[verifier::truncate] (i as u64));
        bm_put_slice(&mut self.trans, arr.as_slice());
        self.index = bm_len(&self.trans);
        Ok(())
    }

    /// Writes a double value, carried as its 64-bit big-endian bit pattern.
    pub fn write_double(&mut self, d: u64) -> (res: Result<(), EncodeError>)
        requires
            old(self).out_wf(),
        ensures
            res is Ok,
            final(self).out_wf(),
            final(self).appended(*old(self), be64(d)),
    {
        let arr = u64_to_be(d);
        bm_put_slice(&mut self.trans, arr.as_slice());
        self.index = bm_len(&self.trans);
        Ok(())
    }

    pub fn write_string(&mut self, s: &str) -> (res: Result<(), EncodeError>)
        requires
            old(self).out_wf(),
            s.spec_bytes().len() <= 0x7fffffff,
        ensures
            res is Ok,
            final(self).out_wf(),
            final(self).appended(*old(self), length_prefixed(s.spec_bytes())),
    {
        let n = s.len();
        proof {
            lemma_len_cast(n);
        }
        self.write_i32(n as i32)?;
        bm_put_slice(&mut self.trans, s.as_bytes());
        self.index = bm_len(&self.trans);
        proof {
            assert(bm_view(self.trans) =~= bm_view(old(self).trans) + length_prefixed(
                s.spec_bytes(),
            ));
        }
        Ok(())
    }

    pub fn write_faststr(&mut self, s: FastStr) -> (res: Result<(), EncodeError>)
        requires
            old(self).out_wf(),
            fs_view(s).len() <= 0x7fffffff,
        ensures
            res is Ok,
            final(self).out_wf(),
            final(self).appended(*old(self), length_prefixed(fs_view(s))),
            valid_utf8(fs_view(s)),
    {
        let n = fs_len(&s);
        proof {
            lemma_len_cast(n);
        }
        self.write_i32(n as i32)?;
        bm_put_slice(&mut self.trans, fs_as_bytes(&s));
        self.index = bm_len(&self.trans);
        proof {
            assert(bm_view(self.trans) =~= bm_view(old(self).trans) + length_prefixed(
                fs_view(s),
            ));
        }
        Ok(())
    }

    pub fn write_list_begin(&mut self, identifier: TListIdentifier) -> (res: Result<
        (),
        EncodeError,
    >)
        requires
            old(self).out_wf(),
            identifier.size <= 0x7fffffff,
        ensures
            res is Ok,
            final(self).out_wf(),
            final(self).appended(
                *old(self),
                collection_begin_bytes(identifier.element_type, identifier.size),
            ),
    {
        self.write_byte(identifier.element_type.code())?;
        proof {
            lemma_len_cast(identifier.size);
        }
        self.write_i32(identifier.size as i32)?;
        proof {
            assert(bm_view(self.trans) =~= bm_view(old(self).trans) + collection_begin_bytes(
                identifier.element_type,
                identifier.size,
            ));
        }
        Ok(())
    }

    pub fn write_list_end(&mut self) -> (res: Result<(), EncodeError>)
        ensures
            res is Ok,
            *final(self) == *old(self),
    {
        Ok(())
    }

    pub fn write_set_begin(&mut self, identifier: TSetIdentifier) -> (res: Result<
        (),
        EncodeError,
    >)
        requires
            old(self).out_wf(),
            identifier.size <= 0x7fffffff,
        ensures
            res is Ok,
            final(self).out_wf(),
            final(self).appended(
                *old(self),
                collection_begin_bytes(identifier.element_type, identifier.size),
            ),
    {
        self.write_byte(identifier.element_type.code())?;
        proof {
            lemma_len_cast(identifier.size);
        }
        self.write_i32(identifier.size as i32)?;
        proof {
            assert(bm_view(self.trans) =~= bm_view(old(self).trans) + collection_begin_bytes(
                identifier.element_type,
                identifier.size,
            ));
        }
        Ok(())
    }

    pub fn write_set_end(&mut self) -> (res: Result<(), EncodeError>)
        ensures
            res is Ok,
            *final(self) == *old(self),
    {
        Ok(())
    }

    pub fn write_map_begin(&mut self, identifier: TMapIdentifier) -> (res: Result<
        (),
        EncodeError,
    >)
        requires
            old(self).out_wf(),
            identifier.size <= 0x7fffffff,
        ensures
            res is Ok,
            final(self).out_wf(),
            final(self).appended(
                *old(self),
                map_begin_bytes(identifier.key_type, identifier.value_type, identifier.size),
            ),
    {
        let key_type = identifier.key_type;
        self.write_byte(key_type.code())?;
        let val_type = identifier.value_type;
        self.write_byte(val_type.code())?;
        proof {
            lemma_len_cast(identifier.size);
        }
        self.write_i32(identifier.size as i32)?;
        proof {
            assert(bm_view(self.trans) =~= bm_view(old(self).trans) + map_begin_bytes(
                identifier.key_type,
                identifier.value_type,
                identifier.size,
            ));
        }
        Ok(())
    }

    pub fn write_map_end(&mut self) -> (res: Result<(), EncodeError>)
        ensures
            res is Ok,
            *final(self) == *old(self),
    {
        Ok(())
    }

    pub fn flush(&mut self) -> (res: Result<(), EncodeError>)
        ensures
            res is Ok,
            *final(self) == *old(self),
    {
        Ok(())
    }

    pub fn write_bytes_vec(&mut self, b: &[u8]) -> (res: Result<(), EncodeError>)
        requires
            old(self).out_wf(),
            b@.len() <= 0x7fffffff,
        ensures
            res is Ok,
            final(self).out_wf(),
            final(self).appended(*old(self), length_prefixed(b@)),
    {
        let n = b.len();
        proof {
            lemma_len_cast(n);
        }
        self.write_i32(n as i32)?;
        bm_put_slice(&mut self.trans, b);
        self.index = bm_len(&self.trans);
        proof {
            assert(bm_view(self.trans) =~= bm_view(old(self).trans) + length_prefixed(b@));
        }
        Ok(())
    }
}

} // verus!
