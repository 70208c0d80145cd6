//! Binary codec for fixed-width integers.
//!
//! Converts 8/16/32/64-bit signed and unsigned integers between their
//! numeric value and a byte sequence under a chosen byte ordering, and
//! layers stream read/write conveniences on top of that conversion.
//!
//! The byte-order strategies live in [`endian`]; [`from_bytes`] decodes
//! from a buffer by integer kind; [`read_integer`] and [`write_integer`]
//! move single integers through the abstract streams of [`stream`];
//! [`binary_read`] and [`binary_write`] add byte-array and integer-array
//! operations; [`seek`], [`file_read`] and [`file_write`] add random
//! access; [`cursor`] holds the verified in-memory streams. Every
//! contract is stated over the mathematical model in [`repr`], and the
//! laws the codec obeys are proved in [`laws`].

pub mod binary_read;
pub mod binary_write;
pub mod cursor;
pub mod endian;
pub mod error;
pub mod file_read;
pub mod file_write;
pub mod from_bytes;
pub mod laws;
pub mod read_integer;
pub mod repr;
pub mod seek;
pub mod stream;
pub mod write_integer;
