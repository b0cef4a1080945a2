//! Thrift binary wire-format codec: a length calculator that predicts the
//! exact byte count of every write, position-tracked writers over contiguous
//! and chained buffers with a zero-copy splice path, and a zero-copy reader.
use vstd::prelude::*;

pub mod chained;
pub mod laws;
pub mod protocol;
pub mod reader;
pub mod streaming;
pub mod transport;
pub mod types;
pub mod wire;
pub mod writer;

verus! {

/// Payloads of at least this many bytes are transferred by reference
/// (spliced into the chain or detached from the buffer) instead of copied,
/// when the active transport supports zero-copy.
pub const ZERO_COPY_THRESHOLD: usize = 4096;

} // verus!
