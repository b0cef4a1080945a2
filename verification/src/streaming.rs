//! The streaming reader's protocol instance. It wraps a sequential byte
//! source with no backing buffer to slice from, so every payload is copied
//! and no zero-copy path exists. The reads themselves suspend on the
//! source and are driven by the surrounding application; the header
//! validation and tag decoding they rely on are the verified functions
//! `validate_message_version` and `field_type_from_u8`.
use vstd::prelude::*;

verus! {

/// A binary-protocol reader over a sequential byte source `R`.
pub struct TAsyncBinaryProtocol<R> {
    pub reader: R,
}

impl<R> TAsyncBinaryProtocol<R> {
    pub fn new(reader: R) -> (r: TAsyncBinaryProtocol<R>)
        ensures
            r.reader == reader,
    {
        TAsyncBinaryProtocol { reader }
    }

    /// Hands the byte source back to the caller driving the reads.
    pub fn into_inner(self) -> (r: R)
        ensures
            r == self.reader,
    {
        self.reader
    }
}

} // verus!
