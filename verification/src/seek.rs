//! Moving the position of a stream.
//!
//! [`Seek`] moves a stream's position to an offset given absolutely, from
//! the current position, or from the end. Any non-negative target that a
//! machine offset can hold is accepted, also one past the end of the
//! stream; a target before the start or beyond the largest representable
//! offset fails and leaves the position unchanged.

use vstd::prelude::*;

use crate::error::IoError;

verus! {

/// Where a seek counts its offset from.
#[derive(Clone, Copy, Debug, PartialEq, Eq, Structural)]
pub enum SeekFrom {
    /// An absolute offset from the start of the stream.
    Start(u64),
    /// A signed offset from the current position.
    Current(i64),
    /// A signed offset from the end of the stream.
    End(i64),
}

/// The absolute position a seek aims at, given the current position and
/// the stream's length.
pub open spec fn seek_target(from: SeekFrom, position: nat, len: nat) -> int {
    match from {
        SeekFrom::Start(offset) => offset as int,
        SeekFrom::Current(delta) => position + delta,
        SeekFrom::End(delta) => len + delta,
    }
}

/// Moves a stream's position.
pub trait Seek {
    /// The bytes of the stream being seeked over.
    spec fn stream_data(&self) -> Seq<u8>;

    /// The stream's current position.
    spec fn position(&self) -> nat;

    /// Seeks to the given offset and returns the resulting absolute
    /// position.
    ///
    /// # Errors
    ///
    /// If the target is negative or larger than the machine can address,
    /// returns Err(IoError) and the position stays where it was.
    fn seek(&mut self, from: SeekFrom) -> (r: Result<u64, IoError>)
        ensures
            final(self).stream_data() == old(self).stream_data(),
            ({
                let target = seek_target(
                    from,
                    old(self).position(),
                    old(self).stream_data().len(),
                );
                &&& (r is Ok <==> 0 <= target <= usize::MAX)
                &&& (r matches Ok(offset) ==> final(self).position() == target && offset as int
                    == target)
            }),
            r is Err ==> final(self).position() == old(self).position() && r == Err::<
                u64,
                IoError,
            >(IoError::InvalidSeek),
    ;
}

} // verus!
