//! Random-access reading: the stream-reader contract plus seeking.

use vstd::prelude::*;

use crate::binary_read::BinaryRead;
use crate::seek::Seek;

verus! {

/// A readable stream with a movable position.
///
/// This adds no decoding of its own: it is the conjunction of the
/// stream-reader contract and the seek capability, with the obligation
/// that both see one stream — the same bytes and the same position.
pub trait FileRead: BinaryRead + Seek {
    /// The seek capability and the read capability agree on the stream's
    /// bytes and position.
    proof fn views_agree(&self)
        ensures
            self.stream_data() == self.data(),
            self.position() == self.pos(),
    ;
}

} // verus!
