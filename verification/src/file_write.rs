//! Random-access writing: the stream-writer contract plus seeking.

use vstd::prelude::*;

use crate::binary_write::BinaryWrite;
use crate::seek::Seek;

verus! {

/// A writable stream with a movable position.
///
/// This adds no encoding of its own: it is the conjunction of the
/// stream-writer contract and the seek capability, with the obligation
/// that both see one stream — the same bytes and the same position.
pub trait FileWrite: BinaryWrite + Seek {
    /// The seek capability and the write capability agree on the sink's
    /// bytes and position.
    proof fn views_agree(&self)
        ensures
            self.stream_data() == self.data(),
            self.position() == self.pos(),
    ;
}

} // verus!
