//! The protocol instance and its length-computation pass.
//!
//! The length pass mirrors every write operation: each `write_<x>_len`
//! method returns exactly the number of bytes the matching write will
//! advance its cursor by. That agreement is the soundness contract the
//! preallocating writers depend on, and it is stated in the contracts here
//! and proved against the writers in `laws`.
use vstd::prelude::*;
use vstd::string::StringSliceAdditionalSpecFns;
use crate::types::TListIdentifier;
use crate::types::TMapIdentifier;
use crate::types::TMessageIdentifier;
use crate::types::TSetIdentifier;
use crate::types::TStructIdentifier;
use crate::types::TType;
use crate::transport::fs_len;
use crate::transport::fs_view;
use crate::ZERO_COPY_THRESHOLD;
use faststr::FastStr;

verus! {

/// A binary-protocol instance over one transport `T`: a forward-only
/// cursor, the zero-copy capability flag of the transport, and the
/// accumulator of bytes that qualify for zero-copy transfer.
pub struct TBinaryProtocol<T> {
    pub trans: T,
    pub index: usize,
    pub zero_copy: bool,
    pub zero_copy_len: usize,
}

impl<T> TBinaryProtocol<T> {
    /// `zero_copy` only takes effect when `T` supports transferring
    /// payloads by reference (a chained buffer for output, an owned
    /// splittable buffer for input).
    pub fn new(trans: T, zero_copy: bool) -> (r: TBinaryProtocol<T>)
        ensures
            r.trans == trans,
            r.index == 0,
            r.zero_copy == zero_copy,
            r.zero_copy_len == 0,
    {
        TBinaryProtocol { trans, index: 0, zero_copy, zero_copy_len: 0 }
    }

    /// The transport, the cursor and the capability flag are unchanged;
    /// only the zero-copy accumulator may have moved.
    pub open spec fn only_accumulator_changed(self, o: TBinaryProtocol<T>) -> bool {
        self.trans == o.trans && self.index == o.index && self.zero_copy == o.zero_copy
    }

    /// The number of bytes counted so far that the matching writer would
    /// transfer by reference instead of copying.
    pub fn zero_copy_len(&mut self) -> (r: usize)
        ensures
            r == old(self).zero_copy_len,
            *final(self) == *old(self),
    {
        self.zero_copy_len
    }

    /// Clears the zero-copy accumulator between uses of the instance.
    pub fn reset(&mut self)
        ensures
            final(self).only_accumulator_changed(*old(self)),
            final(self).zero_copy_len == 0,
    {
        self.zero_copy_len = 0;
    }

    pub fn write_message_begin_len(&mut self, identifier: &TMessageIdentifier) -> (r: usize)
        requires
            12 + fs_view(identifier.name).len() <= usize::MAX,
            old(self).zero_copy_len + fs_view(identifier.name).len() <= usize::MAX,
        ensures
            r == 12 + fs_view(identifier.name).len(),
            final(self).only_accumulator_changed(*old(self)),
            final(self).zero_copy_len == if old(self).zero_copy && fs_view(identifier.name).len()
                >= ZERO_COPY_THRESHOLD {
                old(self).zero_copy_len + fs_view(identifier.name).len()
            } else {
                old(self).zero_copy_len as int
            },
    {
        let a = self.write_i32_len(0);
        let b = self.write_faststr_len(&identifier.name);
        let c = self.write_i32_len(0);
        a + b + c
    }

    pub fn write_message_end_len(&mut self) -> (r: usize)
        ensures
            r == 0,
            *final(self) == *old(self),
    {
        0
    }

    pub fn write_struct_begin_len(&mut self, _identifier: &TStructIdentifier) -> (r: usize)
        ensures
            r == 0,
            *final(self) == *old(self),
    {
        0
    }

    pub fn write_struct_end_len(&mut self) -> (r: usize)
        ensures
            r == 0,
            *final(self) == *old(self),
    {
        0
    }

    pub fn write_field_begin_len(&mut self, _field_type: TType, _id: Option<i16>) -> (r: usize)
        ensures
            r == 3,
            *final(self) == *old(self),
    {
        let a = self.write_byte_len(0);
        let b = self.write_i16_len(0);
        a + b
    }

    pub fn write_field_end_len(&mut self) -> (r: usize)
        ensures
            r == 0,
            *final(self) == *old(self),
    {
        0
    }

    pub fn write_field_stop_len(&mut self) -> (r: usize)
        ensures
            r == 1,
            *final(self) == *old(self),
    {
        self.write_byte_len(0)
    }

    pub fn write_bool_len(&mut self, _b: bool) -> (r: usize)
        ensures
            r == 1,
            *final(self) == *old(self),
    {
        self.write_i8_len(0)
    }

    pub fn write_bytes_len(&mut self, b: &[u8]) -> (r: usize)
        requires
            4 + b@.len() <= usize::MAX,
            old(self).zero_copy_len + b@.len() <= usize::MAX,
        ensures
            r == 4 + b@.len(),
            final(self).only_accumulator_changed(*old(self)),
            final(self).zero_copy_len == if old(self).zero_copy && b@.len()
                >= ZERO_COPY_THRESHOLD {
                old(self).zero_copy_len + b@.len()
            } else {
                old(self).zero_copy_len as int
            },
    {
        let n = b.len();
        if self.zero_copy && n >= ZERO_COPY_THRESHOLD {
            self.zero_copy_len = self.zero_copy_len + n;
        }
        let a = self.write_i32_len(0);
        a + n
    }

    pub fn write_byte_len(&mut self, _b: u8) -> (r: usize)
        ensures
            r == 1,
            *final(self) == *old(self),
    {
        1
    }

    pub fn write_uuid_len(&mut self, _u: [u8; 16]) -> (r: usize)
        ensures
            r == 16,
            *final(self) == *old(self),
    {
        16
    }

    pub fn write_i8_len(&mut self, _i: i8) -> (r: usize)
        ensures
            r == 1,
            *final(self) == *old(self),
    {
        1
    }

    pub fn write_i16_len(&mut self, _i: i16) -> (r: usize)
        ensures
            r == 2,
            *final(self) == *old(self),
    {
        2
    }

    pub fn write_i32_len(&mut self, _i: i32) -> (r: usize)
        ensures
            r == 4,
            *final(self) == *old(self),
    {
        4
    }

    pub fn write_i64_len(&mut self, _i: i64) -> (r: usize)
        ensures
            r == 8,
            *final(self) == *old(self),
    {
        8
    }

    /// Length of a double value; the writers carry doubles as their 64-bit
    /// big-endian bit pattern.
    pub fn write_double_len(&mut self, _d: u64) -> (r: usize)
        ensures
            r == 8,
            *final(self) == *old(self),
    {
        8
    }

    pub fn write_string_len(&mut self, s: &str) -> (r: usize)
        requires
            4 + s.spec_bytes().len() <= usize::MAX,
        ensures
            r == 4 + s.spec_bytes().len(),
            *final(self) == *old(self),
    {
        let a = self.write_i32_len(0);
        a + s.len()
    }

    pub fn write_faststr_len(&mut self, s: &FastStr) -> (r: usize)
        requires
            4 + fs_view(*s).len() <= usize::MAX,
            old(self).zero_copy_len + fs_view(*s).len() <= usize::MAX,
        ensures
            r == 4 + fs_view(*s).len(),
            final(self).only_accumulator_changed(*old(self)),
            final(self).zero_copy_len == if old(self).zero_copy && fs_view(*s).len()
                >= ZERO_COPY_THRESHOLD {
                old(self).zero_copy_len + fs_view(*s).len()
            } else {
                old(self).zero_copy_len as int
            },
    {
        let n = fs_len(s);
        if self.zero_copy && n >= ZERO_COPY_THRESHOLD {
            self.zero_copy_len = self.zero_copy_len + n;
        }
        let a = self.write_i32_len(0);
        a + n
    }

    pub fn write_list_begin_len(&mut self, _identifier: TListIdentifier) -> (r: usize)
        ensures
            r == 5,
            *final(self) == *old(self),
    {
        let a = self.write_byte_len(0);
        let b = self.write_i32_len(0);
        a + b
    }

    pub fn write_list_end_len(&mut self) -> (r: usize)
        ensures
            r == 0,
            *final(self) == *old(self),
    {
        0
    }

    pub fn write_set_begin_len(&mut self, _identifier: TSetIdentifier) -> (r: usize)
        ensures
            r == 5,
            *final(self) == *old(self),
    {
        let a = self.write_byte_len(0);
        let b = self.write_i32_len(0);
        a + b
    }

    pub fn write_set_end_len(&mut self) -> (r: usize)
        ensures
            r == 0,
            *final(self) == *old(self),
    {
        0
    }

    pub fn write_map_begin_len(&mut self, _identifier: TMapIdentifier) -> (r: usize)
        ensures
            r == 6,
            *final(self) == *old(self),
    {
        let a = self.write_byte_len(0);
        let b = self.write_byte_len(0);
        let c = self.write_i32_len(0);
        a + b + c
    }

    pub fn write_map_end_len(&mut self) -> (r: usize)
        ensures
            r == 0,
            *final(self) == *old(self),
    {
        0
    }

    /// Length of a length-prefixed byte payload that never qualifies for
    /// zero-copy transfer.
    pub fn write_bytes_vec_len(&mut self, b: &[u8]) -> (r: usize)
        requires
            4 + b@.len() <= usize::MAX,
        ensures
            r == 4 + b@.len(),
            *final(self) == *old(self),
    {
        let a = self.write_i32_len(0);
        a + b.len()
    }
}

} // verus!
