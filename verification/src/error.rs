//! Failure taxonomy of a transfer session.
//!
//! `Io` and `Timeout` classify failures of the primitive operations that the
//! surrounding program performs on the stream; `Incomplete` records that the
//! byte count promised in the metadata was not fulfilled before the stream
//! ended; `NameTooLong` rejects a file name whose UTF-8 encoding does not fit
//! the two-byte length prefix of the wire format.

use vstd::prelude::*;

verus! {

/// Largest byte length of a file name that the two-byte length prefix can
/// carry.
pub const MAX_NAME_BYTES: usize = 65535;

/// Why a transfer session failed. A digest mismatch is deliberately not a
/// variant: it is a terminal outcome, reported rather than thrown.
#[derive(Clone, Copy, Debug, PartialEq, Eq, Structural)]
pub enum TransferError {
    /// The underlying transport or filesystem failed.
    Io,
    /// A single primitive operation exceeded its deadline.
    Timeout,
    /// The stream ended before the advertised byte count was fulfilled.
    Incomplete { expected: u64, received: u64 },
    /// The file name's UTF-8 encoding exceeds `MAX_NAME_BYTES` bytes.
    NameTooLong,
}

} // verus!
