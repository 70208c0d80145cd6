//! Reading binary data from a stream.
//!
//! [`BinaryRead`] models a sequential byte source as the full byte
//! sequence it yields ([`BinaryRead::data`]) together with a read position
//! ([`BinaryRead::pos`]). Each successful read consumes exactly the bytes
//! it returns; a read that needs more bytes than remain fails with
//! [`IoError::UnexpectedEof`], consumes nothing for the failing element,
//! and never fabricates a value. Reading an array aborts at the first
//! failing element; the bytes of the elements before it stay consumed.

use vstd::prelude::*;

use crate::endian::Endian;
use crate::error::IoError;
use crate::read_integer::ReadInteger;
use crate::stream::ByteSource;

verus! {

/// Provides the features to read binary data.
///
/// The stream itself is the [`ByteSource`] supertrait; this trait layers
/// byte-array and integer reads over its primitive.
pub trait BinaryRead: ByteSource {
    /// Reads byte array.
    ///
    /// Reads exactly `byte_count` bytes; succeeds exactly when that many
    /// remain (a request for zero bytes always succeeds). No byte-order
    /// transformation is applied.
    ///
    /// # Errors
    ///
    /// If the function succeeds then Ok(bytes), otherwise Err(IoError).
    fn read_byte_array(&mut self, byte_count: usize) -> (r: Result<Vec<u8>, IoError>)
        ensures
            final(self).data() == old(self).data(),
            r is Ok <==> (byte_count == 0 || old(self).pos() + byte_count <= old(
                self,
            ).data().len()),
            (r matches Ok(buf) ==> final(self).pos() == old(self).pos() + byte_count
                && buf@.len() == byte_count),
            (r matches Ok(buf) ==> (byte_count > 0 ==> buf@ == old(self).data().subrange(
                old(self).pos() as int,
                (old(self).pos() + byte_count) as int,
            ))),
            r is Err ==> final(self).pos() == old(self).pos() && r == Err::<Vec<u8>, IoError>(
                IoError::UnexpectedEof,
            ),
    ;

    /// Reads an integer.
    ///
    /// # Errors
    ///
    /// If the function succeeds then Ok(TInt), otherwise Err(IoError).
    fn read_integer<TEndian: Endian, TInt: ReadInteger<OutputType = TInt>>(&mut self) -> (r: Result<
        TInt,
        IoError,
    >)
        ensures
            final(self).data() == old(self).data(),
            r is Ok <==> old(self).pos() + TInt::width() <= old(self).data().len(),
            (r matches Ok(v) ==> final(self).pos() == old(self).pos() + TInt::width() && v
                == TInt::decoded(
                TEndian::is_big_endian(),
                old(self).data().subrange(
                    old(self).pos() as int,
                    (old(self).pos() + TInt::width()) as int,
                ),
            )),
            r is Err ==> final(self).pos() == old(self).pos() && r == Err::<TInt, IoError>(
                IoError::UnexpectedEof,
            ),
    ;

    /// Reads an integer array.
    ///
    /// Reads `element_count` integers sequentially in call order; on the
    /// first failure it aborts and surfaces that failure, returning no
    /// partial sequence, though the bytes of the elements before the
    /// failing one stay consumed.
    ///
    /// # Errors
    ///
    /// If the function succeeds then Ok(integers), otherwise Err(IoError).
    fn read_integer_array<TEndian: Endian, TInt: ReadInteger<OutputType = TInt>>(
        &mut self,
        element_count: usize,
    ) -> (r: Result<Vec<TInt>, IoError>)
        ensures
            final(self).data() == old(self).data(),
            r is Ok <==> (element_count == 0 || old(self).pos() + element_count * TInt::width()
                <= old(self).data().len()),
            (r matches Ok(values) ==> final(self).pos() == old(self).pos() + element_count
                * TInt::width() && values@.len() == element_count && (forall|i: int|
                0 <= i < element_count ==> values@[i] == TInt::decoded(
                    TEndian::is_big_endian(),
                    old(self).data().subrange(
                        old(self).pos() + i * TInt::width(),
                        old(self).pos() + (i + 1) * TInt::width(),
                    ),
                ))),
            r is Err ==> r == Err::<Vec<TInt>, IoError>(IoError::UnexpectedEof) && (exists|k: nat|
                k < element_count && final(self).pos() == old(self).pos() + #[trigger] (k
                    * TInt::width()) && old(self).pos() + (k + 1) * TInt::width() > old(
                    self,
                ).data().len()),
    ;
}

} // verus!
