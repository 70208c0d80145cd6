//! Writing single integers to a binary stream.
//!
//! [`WriteInteger`] is implemented by each of the eight fixed-width
//! integer kinds: it encodes the value into exactly the kind's width of
//! bytes under the chosen ordering and writes that buffer fully to the
//! sink. A signed kind delegates to its same-width unsigned counterpart
//! through a two's-complement reinterpretation, so the two share their
//! byte layout by construction.

use vstd::prelude::*;

use crate::endian::Endian;
use crate::error::IoError;
use crate::repr::i16_encoded;
use crate::repr::i32_encoded;
use crate::repr::i64_encoded;
use crate::repr::i8_encoded;
use crate::repr::lemma_encode_bytes_len;
use crate::repr::reinterpret_u16;
use crate::repr::reinterpret_u32;
use crate::repr::reinterpret_u64;
use crate::repr::reinterpret_u8;
use crate::repr::u16_encoded;
use crate::repr::u32_encoded;
use crate::repr::u64_encoded;
use crate::repr::u8_encoded;
use crate::stream::overwrite;
use crate::stream::ByteSink;

verus! {

/// Writes one fixed-width integer to a binary stream.
///
/// A write lays down exactly [`Self::width()`] bytes at the sink's
/// position on success; it succeeds exactly when that many bytes fit
/// under the sink's limit, and on failure it writes nothing and reports
/// [`IoError::LimitExceeded`].
pub trait WriteInteger: Sized {
    /// The kind's width in bytes.
    spec fn width() -> nat;

    /// The bytes this value encodes to under the ordering chosen by `big`.
    spec fn encoded(&self, big: bool) -> Seq<u8>;

    /// Every integer kind is at least one byte wide.
    proof fn width_positive()
        ensures
            Self::width() > 0,
    ;

    /// A value encodes to exactly the kind's width of bytes.
    proof fn encoded_len(&self, big: bool)
        ensures
            self.encoded(big).len() == Self::width(),
    ;

    /// Writes the integer to the `writer`.
    ///
    /// # Errors
    ///
    /// If the function succeeds, returns Ok(()), otherwise returns
    /// Err(IoError).
    fn write_integer<TEndian: Endian, TWrite: ByteSink>(&self, writer: &mut TWrite) -> (r: Result<
        (),
        IoError,
    >)
        ensures
            final(writer).limit() == old(writer).limit(),
            r is Ok <==> old(writer).pos() + Self::width() <= old(writer).limit(),
            r is Ok ==> final(writer).data() == overwrite(
                old(writer).data(),
                old(writer).pos() as int,
                self.encoded(TEndian::is_big_endian()),
            ) && final(writer).pos() == old(writer).pos() + Self::width(),
            r is Err ==> final(writer).data() == old(writer).data() && final(writer).pos() == old(
                writer,
            ).pos() && r == Err::<(), IoError>(IoError::LimitExceeded),
    ;
}

/// The concatenated encodings of a sequence of values, in order, under the
/// ordering chosen by `big`.
pub open spec fn encoded_seq<TInt: WriteInteger>(values: Seq<TInt>, big: bool) -> Seq<u8>
    decreases values.len(),
{
    if values.len() == 0 {
        Seq::empty()
    } else {
        encoded_seq(values.drop_last(), big) + values.last().encoded(big)
    }
}

/// The concatenated encodings of `n` values take `n * width` bytes.
pub proof fn lemma_encoded_seq_len<TInt: WriteInteger>(values: Seq<TInt>, big: bool)
    ensures
        encoded_seq(values, big).len() == values.len() * TInt::width(),
    decreases values.len(),
{
    if values.len() == 0 {
        assert(values.len() * TInt::width() == 0) by (nonlinear_arith)
            requires
                values.len() == 0,
        ;
    } else {
        let rest = values.drop_last();
        lemma_encoded_seq_len::<TInt>(rest, big);
        values.last().encoded_len(big);
        assert(rest.len() * TInt::width() + TInt::width() == values.len() * TInt::width())
            by (nonlinear_arith)
            requires
                rest.len() + 1 == values.len(),
        ;
    }
}

impl WriteInteger for u8 {
    open spec fn width() -> nat {
        1
    }

    open spec fn encoded(&self, big: bool) -> Seq<u8> {
        u8_encoded(big, *self)
    }

    proof fn width_positive() {
    }

    proof fn encoded_len(&self, big: bool) {
        lemma_encode_bytes_len(big, *self as nat, 1);
    }

    fn write_integer<TEndian: Endian, TWrite: ByteSink>(&self, writer: &mut TWrite) -> (r: Result<
        (),
        IoError,
    >) {
        let mut buf: Vec<u8> = vec![0u8];
        TEndian::u8_to_bytes(*self, buf.as_mut_slice());
        proof {
            assert(buf@.subrange(0, 1) =~= buf@);
            lemma_encode_bytes_len(TEndian::is_big_endian(), *self as nat, 1);
        }
        writer.write_all(buf.as_slice())
    }
}

impl WriteInteger for i8 {
    open spec fn width() -> nat {
        1
    }

    open spec fn encoded(&self, big: bool) -> Seq<u8> {
        i8_encoded(big, *self)
    }

    proof fn width_positive() {
    }

    proof fn encoded_len(&self, big: bool) {
        lemma_encode_bytes_len(big, crate::repr::to_unsigned(*self as int, 1), 1);
    }

    fn write_integer<TEndian: Endian, TWrite: ByteSink>(&self, writer: &mut TWrite) -> (r: Result<
        (),
        IoError,
    >) {
        let u = reinterpret_u8(*self);
        u.write_integer::<TEndian, TWrite>(writer)
    }
}

impl WriteInteger for u16 {
    open spec fn width() -> nat {
        2
    }

    open spec fn encoded(&self, big: bool) -> Seq<u8> {
        u16_encoded(big, *self)
    }

    proof fn width_positive() {
    }

    proof fn encoded_len(&self, big: bool) {
        lemma_encode_bytes_len(big, *self as nat, 2);
    }

    fn write_integer<TEndian: Endian, TWrite: ByteSink>(&self, writer: &mut TWrite) -> (r: Result<
        (),
        IoError,
    >) {
        let mut buf: Vec<u8> = vec![0u8, 0u8];
        TEndian::u16_to_bytes(*self, buf.as_mut_slice());
        proof {
            assert(buf@.subrange(0, 2) =~= buf@);
            lemma_encode_bytes_len(TEndian::is_big_endian(), *self as nat, 2);
        }
        writer.write_all(buf.as_slice())
    }
}

impl WriteInteger for i16 {
    open spec fn width() -> nat {
        2
    }

    open spec fn encoded(&self, big: bool) -> Seq<u8> {
        i16_encoded(big, *self)
    }

    proof fn width_positive() {
    }

    proof fn encoded_len(&self, big: bool) {
        lemma_encode_bytes_len(big, crate::repr::to_unsigned(*self as int, 2), 2);
    }

    fn write_integer<TEndian: Endian, TWrite: ByteSink>(&self, writer: &mut TWrite) -> (r: Result<
        (),
        IoError,
    >) {
        let u = reinterpret_u16(*self);
        u.write_integer::<TEndian, TWrite>(writer)
    }
}

impl WriteInteger for u32 {
    open spec fn width() -> nat {
        4
    }

    open spec fn encoded(&self, big: bool) -> Seq<u8> {
        u32_encoded(big, *self)
    }

    proof fn width_positive() {
    }

    proof fn encoded_len(&self, big: bool) {
        lemma_encode_bytes_len(big, *self as nat, 4);
    }

    fn write_integer<TEndian: Endian, TWrite: ByteSink>(&self, writer: &mut TWrite) -> (r: Result<
        (),
        IoError,
    >) {
        let mut buf: Vec<u8> = vec![0u8, 0u8, 0u8, 0u8];
        TEndian::u32_to_bytes(*self, buf.as_mut_slice());
        proof {
            assert(buf@.subrange(0, 4) =~= buf@);
            lemma_encode_bytes_len(TEndian::is_big_endian(), *self as nat, 4);
        }
        writer.write_all(buf.as_slice())
    }
}

impl WriteInteger for i32 {
    open spec fn width() -> nat {
        4
    }

    open spec fn encoded(&self, big: bool) -> Seq<u8> {
        i32_encoded(big, *self)
    }

    proof fn width_positive() {
    }

    proof fn encoded_len(&self, big: bool) {
        lemma_encode_bytes_len(big, crate::repr::to_unsigned(*self as int, 4), 4);
    }

    fn write_integer<TEndian: Endian, TWrite: ByteSink>(&self, writer: &mut TWrite) -> (r: Result<
        (),
        IoError,
    >) {
        let u = reinterpret_u32(*self);
        u.write_integer::<TEndian, TWrite>(writer)
    }
}

impl WriteInteger for u64 {
    open spec fn width() -> nat {
        8
    }

    open spec fn encoded(&self, big: bool) -> Seq<u8> {
        u64_encoded(big, *self)
    }

    proof fn width_positive() {
    }

    proof fn encoded_len(&self, big: bool) {
        lemma_encode_bytes_len(big, *self as nat, 8);
    }

    fn write_integer<TEndian: Endian, TWrite: ByteSink>(&self, writer: &mut TWrite) -> (r: Result<
        (),
        IoError,
    >) {
        let mut buf: Vec<u8> = vec![0u8, 0u8, 0u8, 0u8, 0u8, 0u8, 0u8, 0u8];
        TEndian::u64_to_bytes(*self, buf.as_mut_slice());
        proof {
            assert(buf@.subrange(0, 8) =~= buf@);
            lemma_encode_bytes_len(TEndian::is_big_endian(), *self as nat, 8);
        }
        writer.write_all(buf.as_slice())
    }
}

impl WriteInteger for i64 {
    open spec fn width() -> nat {
        8
    }

    open spec fn encoded(&self, big: bool) -> Seq<u8> {
        i64_encoded(big, *self)
    }

    proof fn width_positive() {
    }

    proof fn encoded_len(&self, big: bool) {
        lemma_encode_bytes_len(big, crate::repr::to_unsigned(*self as int, 8), 8);
    }

    fn write_integer<TEndian: Endian, TWrite: ByteSink>(&self, writer: &mut TWrite) -> (r: Result<
        (),
        IoError,
    >) {
        let u = reinterpret_u64(*self);
        u.write_integer::<TEndian, TWrite>(writer)
    }
}

} // verus!
