//! Decoding integers from an in-memory byte buffer.
//!
//! [`FromBytes`] is the typed entry point to the byte-order strategies: a
//! call such as `u32::from_bytes::<BigEndian>(&bytes)` dispatches to the
//! strategy's decode for that kind.

use vstd::prelude::*;

use crate::endian::Endian;
use crate::repr::i16_decoded;
use crate::repr::i32_decoded;
use crate::repr::i64_decoded;
use crate::repr::i8_decoded;
use crate::repr::u16_decoded;
use crate::repr::u32_decoded;
use crate::repr::u64_decoded;
use crate::repr::u8_decoded;

verus! {

/// Decodes a fixed-width integer from the front of a byte buffer under a
/// chosen byte ordering. The buffer must hold at least the kind's width.
pub trait FromBytes: Sized {
    /// The integer type the decode yields.
    type OutputType;

    /// The kind's width in bytes.
    spec fn width() -> nat;

    /// The value of the kind's width of bytes under the ordering chosen by
    /// `big`.
    spec fn decoded(big: bool, s: Seq<u8>) -> Self::OutputType;

    /// Decodes the first [`Self::width()`] bytes of `bytes`.
    fn from_bytes<TEndian: Endian>(bytes: &[u8]) -> (r: Self::OutputType)
        requires
            bytes@.len() >= Self::width(),
        ensures
            r == Self::decoded(
                TEndian::is_big_endian(),
                bytes@.subrange(0, Self::width() as int),
            ),
    ;
}

impl FromBytes for u8 {
    type OutputType = u8;

    open spec fn width() -> nat {
        1
    }

    open spec fn decoded(big: bool, s: Seq<u8>) -> u8 {
        u8_decoded(big, s)
    }

    fn from_bytes<TEndian: Endian>(bytes: &[u8]) -> (r: u8) {
        TEndian::u8_from_bytes(bytes)
    }
}

impl FromBytes for i8 {
    type OutputType = i8;

    open spec fn width() -> nat {
        1
    }

    open spec fn decoded(big: bool, s: Seq<u8>) -> i8 {
        i8_decoded(big, s)
    }

    fn from_bytes<TEndian: Endian>(bytes: &[u8]) -> (r: i8) {
        TEndian::i8_from_bytes(bytes)
    }
}

impl FromBytes for u16 {
    type OutputType = u16;

    open spec fn width() -> nat {
        2
    }

    open spec fn decoded(big: bool, s: Seq<u8>) -> u16 {
        u16_decoded(big, s)
    }

    fn from_bytes<TEndian: Endian>(bytes: &[u8]) -> (r: u16) {
        TEndian::u16_from_bytes(bytes)
    }
}

impl FromBytes for i16 {
    type OutputType = i16;

    open spec fn width() -> nat {
        2
    }

    open spec fn decoded(big: bool, s: Seq<u8>) -> i16 {
        i16_decoded(big, s)
    }

    fn from_bytes<TEndian: Endian>(bytes: &[u8]) -> (r: i16) {
        TEndian::i16_from_bytes(bytes)
    }
}

impl FromBytes for u32 {
    type OutputType = u32;

    open spec fn width() -> nat {
        4
    }

    open spec fn decoded(big: bool, s: Seq<u8>) -> u32 {
        u32_decoded(big, s)
    }

    fn from_bytes<TEndian: Endian>(bytes: &[u8]) -> (r: u32) {
        TEndian::u32_from_bytes(bytes)
    }
}

impl FromBytes for i32 {
    type OutputType = i32;

    open spec fn width() -> nat {
        4
    }

    open spec fn decoded(big: bool, s: Seq<u8>) -> i32 {
        i32_decoded(big, s)
    }

    fn from_bytes<TEndian: Endian>(bytes: &[u8]) -> (r: i32) {
        TEndian::i32_from_bytes(bytes)
    }
}

impl FromBytes for u64 {
    type OutputType = u64;

    open spec fn width() -> nat {
        8
    }

    open spec fn decoded(big: bool, s: Seq<u8>) -> u64 {
        u64_decoded(big, s)
    }

    fn from_bytes<TEndian: Endian>(bytes: &[u8]) -> (r: u64) {
        TEndian::u64_from_bytes(bytes)
    }
}

impl FromBytes for i64 {
    type OutputType = i64;

    open spec fn width() -> nat {
        8
    }

    open spec fn decoded(big: bool, s: Seq<u8>) -> i64 {
        i64_decoded(big, s)
    }

    fn from_bytes<TEndian: Endian>(bytes: &[u8]) -> (r: i64) {
        TEndian::i64_from_bytes(bytes)
    }
}

} // verus!
