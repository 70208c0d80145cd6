//! The abstract stream collaborators the codec is layered over.
//!
//! [`ByteSource`] is a sequential byte source exposing one primitive:
//! read exactly N bytes or fail. [`ByteSink`] is a sequential byte sink
//! exposing one primitive: write all given bytes or fail. A source is
//! modelled as the full byte sequence it yields plus a read position; a
//! sink as the bytes it holds, a write position, and a size limit beyond
//! which writes are refused.

use vstd::prelude::*;

use crate::error::IoError;

verus! {

/// A sequential byte source: read exactly the requested bytes, or fail.
pub trait ByteSource {
    /// The full byte sequence this stream yields, from its start.
    spec fn data(&self) -> Seq<u8>;

    /// The number of bytes already consumed from the stream.
    spec fn pos(&self) -> nat;

    /// Reads exactly `byte_count` bytes.
    ///
    /// Succeeds exactly when that many bytes remain (a request for zero
    /// bytes always succeeds); on failure it consumes nothing and reports
    /// [`IoError::UnexpectedEof`].
    fn read_exact(&mut self, byte_count: usize) -> (r: Result<Vec<u8>, IoError>)
        ensures
            final(self).data() == old(self).data(),
            r is Ok <==> (byte_count == 0 || old(self).pos() + byte_count <= old(
                self,
            ).data().len()),
            (r matches Ok(buf) ==> final(self).pos() == old(self).pos() + byte_count
                && buf@.len() == byte_count),
            (r matches Ok(buf) ==> (byte_count > 0 ==> buf@ == old(self).data().subrange(
                old(self).pos() as int,
                (old(self).pos() + byte_count) as int,
            ))),
            r is Err ==> final(self).pos() == old(self).pos() && r == Err::<Vec<u8>, IoError>(
                IoError::UnexpectedEof,
            ),
    ;
}

/// The bytes of `data` with `bytes` laid over it at `pos`: positions
/// `pos .. pos + bytes.len()` hold `bytes`, positions before `pos` and
/// after the written range keep their old values, and any gap between the
/// end of `data` and `pos` is filled with zeros. Writing no bytes changes
/// nothing.
pub open spec fn overwrite(data: Seq<u8>, pos: int, bytes: Seq<u8>) -> Seq<u8>
    recommends
        pos >= 0,
{
    if bytes.len() == 0 {
        data
    } else {
        Seq::new(
            if data.len() >= pos + bytes.len() {
                data.len()
            } else {
                (pos + bytes.len()) as nat
            },
            |i: int|
                if pos <= i < pos + bytes.len() {
                    bytes[i - pos]
                } else if i < data.len() {
                    data[i]
                } else {
                    0u8
                },
        )
    }
}

/// Laying `a` over `data` at `pos` and then `b` right after it is laying
/// `a + b` over `data` at `pos`.
pub proof fn lemma_overwrite_concat(data: Seq<u8>, pos: int, a: Seq<u8>, b: Seq<u8>)
    requires
        pos >= 0,
    ensures
        overwrite(overwrite(data, pos, a), pos + a.len(), b) == overwrite(data, pos, a + b),
{
    if a.len() == 0 {
        assert(a + b =~= b);
    } else if b.len() == 0 {
        assert(a + b =~= a);
    } else {
        assert(overwrite(overwrite(data, pos, a), pos + a.len(), b) =~= overwrite(
            data,
            pos,
            a + b,
        ));
    }
}

/// A sequential byte sink: write all the given bytes, or fail.
pub trait ByteSink {
    /// The bytes the sink holds, from its start.
    spec fn data(&self) -> Seq<u8>;

    /// The position the next write lands at.
    spec fn pos(&self) -> nat;

    /// The size beyond which the sink refuses to grow.
    spec fn limit(&self) -> nat;

    /// Writes all of `bytes` at the current position.
    ///
    /// Succeeds exactly when the write would not pass the sink's limit
    /// (writing no bytes always succeeds); on failure it writes nothing
    /// and reports [`IoError::LimitExceeded`].
    fn write_all(&mut self, bytes: &[u8]) -> (r: Result<(), IoError>)
        ensures
            final(self).limit() == old(self).limit(),
            r is Ok <==> (bytes@.len() == 0 || old(self).pos() + bytes@.len() <= old(
                self,
            ).limit()),
            r is Ok ==> final(self).data() == overwrite(
                old(self).data(),
                old(self).pos() as int,
                bytes@,
            ) && final(self).pos() == old(self).pos() + bytes@.len(),
            r is Err ==> final(self).data() == old(self).data() && final(self).pos() == old(
                self,
            ).pos() && r == Err::<(), IoError>(IoError::LimitExceeded),
    ;
}

} // verus!
