//! Writing binary data to a stream.
//!
//! [`BinaryWrite`] layers integer and integer-array writes over the
//! [`ByteSink`] primitive. Writing an array writes each element in call
//! order and stops at the first failure, leaving the sink holding the
//! bytes of all the elements before it; there is no rollback.

use vstd::prelude::*;

use crate::endian::Endian;
use crate::error::IoError;
use crate::stream::overwrite;
use crate::stream::ByteSink;
use crate::write_integer::encoded_seq;
use crate::write_integer::WriteInteger;

verus! {

/// Provides the features to write binary data.
///
/// The sink itself is the [`ByteSink`] supertrait; this trait layers
/// integer and integer-array writes over its primitive.
pub trait BinaryWrite: ByteSink {
    /// Writes the `value`.
    ///
    /// # Errors
    ///
    /// If the function succeeds, returns Ok(()), otherwise returns
    /// Err(IoError).
    fn write_integer<TEndian: Endian, TInt: WriteInteger>(&mut self, value: TInt) -> (r: Result<
        (),
        IoError,
    >)
        ensures
            final(self).limit() == old(self).limit(),
            r is Ok <==> old(self).pos() + TInt::width() <= old(self).limit(),
            r is Ok ==> final(self).data() == overwrite(
                old(self).data(),
                old(self).pos() as int,
                value.encoded(TEndian::is_big_endian()),
            ) && final(self).pos() == old(self).pos() + TInt::width(),
            r is Err ==> final(self).data() == old(self).data() && final(self).pos() == old(
                self,
            ).pos() && r == Err::<(), IoError>(IoError::LimitExceeded),
    ;

    /// Writes the integer array.
    ///
    /// Writes each element in call order and stops at the first failure,
    /// surfacing it; the bytes of the elements before the failing one stay
    /// written.
    ///
    /// # Errors
    ///
    /// If the function succeeds, returns Ok(()), otherwise returns
    /// Err(IoError).
    fn write_integer_array<TEndian: Endian, TInt: WriteInteger>(&mut self, values: &[TInt]) -> (r:
        Result<(), IoError>)
        ensures
            final(self).limit() == old(self).limit(),
            r is Ok <==> (values@.len() == 0 || old(self).pos() + values@.len() * TInt::width()
                <= old(self).limit()),
            r is Ok ==> final(self).pos() == old(self).pos() + values@.len() * TInt::width()
                && final(self).data() == overwrite(
                old(self).data(),
                old(self).pos() as int,
                encoded_seq(values@, TEndian::is_big_endian()),
            ),
            r is Err ==> r == Err::<(), IoError>(IoError::LimitExceeded) && (exists|k: nat|
                k < values@.len() && final(self).pos() == old(self).pos() + #[trigger] (k
                    * TInt::width()) && final(self).data() == overwrite(
                    old(self).data(),
                    old(self).pos() as int,
                    encoded_seq(values@.take(k as int), TEndian::is_big_endian()),
                ) && old(self).pos() + (k + 1) * TInt::width() > old(self).limit()),
    ;
}

} // verus!
