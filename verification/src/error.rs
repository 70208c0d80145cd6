//! The error type for stream operations.
//!
//! Pure byte-order conversion never fails; only the stream-facing
//! operations return errors, and they surface the failure unchanged to the
//! caller with no retry and no partial result.

use vstd::prelude::*;

verus! {

/// Why a stream operation failed.
#[derive(Clone, Copy, Debug, PartialEq, Eq, Structural)]
pub enum IoError {
    /// A read needed more bytes than the stream had left.
    UnexpectedEof,
    /// A write would have passed the sink's size limit.
    LimitExceeded,
    /// A seek would have placed the position before the start of the
    /// stream or past the largest representable offset.
    InvalidSeek,
}

} // verus!
