//! Reading single integers from a binary stream.
//!
//! [`ReadInteger`] is implemented by each of the eight fixed-width integer
//! kinds: it takes exactly the kind's width from the stream and decodes it
//! under the chosen ordering. A signed kind delegates to its same-width
//! unsigned counterpart and reinterprets the bit pattern, so the two share
//! their byte layout by construction.

use vstd::prelude::*;

use crate::stream::ByteSource;
use crate::endian::Endian;
use crate::error::IoError;
use crate::repr::i16_decoded;
use crate::repr::i32_decoded;
use crate::repr::i64_decoded;
use crate::repr::i8_decoded;
use crate::repr::lemma_pow256_values;
use crate::repr::reinterpret_i16;
use crate::repr::reinterpret_i32;
use crate::repr::reinterpret_i64;
use crate::repr::reinterpret_i8;
use crate::repr::u16_decoded;
use crate::repr::u32_decoded;
use crate::repr::u64_decoded;
use crate::repr::u8_decoded;

verus! {

/// Reads one fixed-width integer from a binary stream.
///
/// A read consumes exactly [`Self::width()`] bytes on success; it succeeds
/// exactly when that many bytes remain, and on failure it consumes nothing
/// and reports [`IoError::UnexpectedEof`].
pub trait ReadInteger: Sized {
    /// The integer type a successful read yields.
    type OutputType;

    /// The kind's width in bytes.
    spec fn width() -> nat;

    /// The value of the kind's width of bytes under the ordering chosen by
    /// `big`.
    spec fn decoded(big: bool, s: Seq<u8>) -> Self::OutputType;

    /// Every integer kind is at least one byte wide.
    proof fn width_positive()
        ensures
            Self::width() > 0,
    ;

    /// Reads an integer from the reader.
    ///
    /// # Errors
    ///
    /// If the function succeeds, returns Ok(Self::OutputType), otherwise
    /// returns Err(IoError).
    fn read_integer<TEndian: Endian, TRead: ByteSource>(reader: &mut TRead) -> (r: Result<
        Self::OutputType,
        IoError,
    >)
        ensures
            final(reader).data() == old(reader).data(),
            r is Ok <==> old(reader).pos() + Self::width() <= old(reader).data().len(),
            (r matches Ok(v) ==> final(reader).pos() == old(reader).pos() + Self::width()
                && v == Self::decoded(
                TEndian::is_big_endian(),
                old(reader).data().subrange(
                    old(reader).pos() as int,
                    (old(reader).pos() + Self::width()) as int,
                ),
            )),
            r is Err ==> final(reader).pos() == old(reader).pos() && r == Err::<
                Self::OutputType,
                IoError,
            >(IoError::UnexpectedEof),
    ;
}

impl ReadInteger for u8 {
    type OutputType = u8;

    open spec fn width() -> nat {
        1
    }

    open spec fn decoded(big: bool, s: Seq<u8>) -> u8 {
        u8_decoded(big, s)
    }

    proof fn width_positive() {
    }

    fn read_integer<TEndian: Endian, TRead: ByteSource>(reader: &mut TRead) -> (r: Result<
        u8,
        IoError,
    >) {
        match reader.read_exact(1) {
            Ok(buf) => {
                proof {
                    assert(buf@.subrange(0, 1) =~= buf@);
                }
                Ok(TEndian::u8_from_bytes(buf.as_slice()))
            },
            Err(e) => Err(e),
        }
    }
}

impl ReadInteger for i8 {
    type OutputType = i8;

    open spec fn width() -> nat {
        1
    }

    open spec fn decoded(big: bool, s: Seq<u8>) -> i8 {
        i8_decoded(big, s)
    }

    proof fn width_positive() {
    }

    fn read_integer<TEndian: Endian, TRead: ByteSource>(reader: &mut TRead) -> (r: Result<
        i8,
        IoError,
    >) {
        proof {
            lemma_pow256_values();
        }
        match u8::read_integer::<TEndian, TRead>(reader) {
            Ok(u) => Ok(reinterpret_i8(u)),
            Err(e) => Err(e),
        }
    }
}

impl ReadInteger for u16 {
    type OutputType = u16;

    open spec fn width() -> nat {
        2
    }

    open spec fn decoded(big: bool, s: Seq<u8>) -> u16 {
        u16_decoded(big, s)
    }

    proof fn width_positive() {
    }

    fn read_integer<TEndian: Endian, TRead: ByteSource>(reader: &mut TRead) -> (r: Result<
        u16,
        IoError,
    >) {
        match reader.read_exact(2) {
            Ok(buf) => {
                proof {
                    assert(buf@.subrange(0, 2) =~= buf@);
                }
                Ok(TEndian::u16_from_bytes(buf.as_slice()))
            },
            Err(e) => Err(e),
        }
    }
}

impl ReadInteger for i16 {
    type OutputType = i16;

    open spec fn width() -> nat {
        2
    }

    open spec fn decoded(big: bool, s: Seq<u8>) -> i16 {
        i16_decoded(big, s)
    }

    proof fn width_positive() {
    }

    fn read_integer<TEndian: Endian, TRead: ByteSource>(reader: &mut TRead) -> (r: Result<
        i16,
        IoError,
    >) {
        proof {
            lemma_pow256_values();
        }
        match u16::read_integer::<TEndian, TRead>(reader) {
            Ok(u) => Ok(reinterpret_i16(u)),
            Err(e) => Err(e),
        }
    }
}

impl ReadInteger for u32 {
    type OutputType = u32;

    open spec fn width() -> nat {
        4
    }

    open spec fn decoded(big: bool, s: Seq<u8>) -> u32 {
        u32_decoded(big, s)
    }

    proof fn width_positive() {
    }

    fn read_integer<TEndian: Endian, TRead: ByteSource>(reader: &mut TRead) -> (r: Result<
        u32,
        IoError,
    >) {
        match reader.read_exact(4) {
            Ok(buf) => {
                proof {
                    assert(buf@.subrange(0, 4) =~= buf@);
                }
                Ok(TEndian::u32_from_bytes(buf.as_slice()))
            },
            Err(e) => Err(e),
        }
    }
}

impl ReadInteger for i32 {
    type OutputType = i32;

    open spec fn width() -> nat {
        4
    }

    open spec fn decoded(big: bool, s: Seq<u8>) -> i32 {
        i32_decoded(big, s)
    }

    proof fn width_positive() {
    }

    fn read_integer<TEndian: Endian, TRead: ByteSource>(reader: &mut TRead) -> (r: Result<
        i32,
        IoError,
    >) {
        proof {
            lemma_pow256_values();
        }
        match u32::read_integer::<TEndian, TRead>(reader) {
            Ok(u) => Ok(reinterpret_i32(u)),
            Err(e) => Err(e),
        }
    }
}

impl ReadInteger for u64 {
    type OutputType = u64;

    open spec fn width() -> nat {
        8
    }

    open spec fn decoded(big: bool, s: Seq<u8>) -> u64 {
        u64_decoded(big, s)
    }

    proof fn width_positive() {
    }

    fn read_integer<TEndian: Endian, TRead: ByteSource>(reader: &mut TRead) -> (r: Result<
        u64,
        IoError,
    >) {
        match reader.read_exact(8) {
            Ok(buf) => {
                proof {
                    assert(buf@.subrange(0, 8) =~= buf@);
                }
                Ok(TEndian::u64_from_bytes(buf.as_slice()))
            },
            Err(e) => Err(e),
        }
    }
}

impl ReadInteger for i64 {
    type OutputType = i64;

    open spec fn width() -> nat {
        8
    }

    open spec fn decoded(big: bool, s: Seq<u8>) -> i64 {
        i64_decoded(big, s)
    }

    proof fn width_positive() {
    }

    fn read_integer<TEndian: Endian, TRead: ByteSource>(reader: &mut TRead) -> (r: Result<
        i64,
        IoError,
    >) {
        proof {
            lemma_pow256_values();
        }
        match u64::read_integer::<TEndian, TRead>(reader) {
            Ok(u) => Ok(reinterpret_i64(u)),
            Err(e) => Err(e),
        }
    }
}

} // verus!
