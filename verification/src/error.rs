//! The closed set of failures that an endpoint operation can report.

use vstd::prelude::*;

verus! {

/// Why an endpoint operation failed.
#[derive(Debug, Clone, Copy, PartialEq, Eq, Structural)]
pub enum Error {
    /// The transport failed; the value is the transport's own error number.
    Transport(i32),
    /// Received bytes do not form a valid frame or payload.
    Decode,
    /// A payload could not be encoded.
    Encode,
    /// A received frame is longer than the space the caller offered for it.
    BufferTooSmall,
}

} // verus!
