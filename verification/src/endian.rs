//! Byte-order strategies: conversion between integers and byte arrays.
//!
//! The [`Endian`] trait turns each of the eight fixed-width integer kinds
//! into bytes and back under one ordering; [`BigEndian`] places the most
//! significant byte first, [`LittleEndian`] the least significant byte
//! first. A decode reads exactly the kind's width from the front of the
//! given buffer; an encode writes exactly that width into the front of the
//! destination and leaves the rest untouched. An undersized buffer is a
//! contract violation, ruled out by each method's precondition rather than
//! detected at run time.

use vstd::prelude::*;

use crate::repr::be_bytes;
use crate::repr::be_val;
use crate::repr::i16_decoded;
use crate::repr::i16_encoded;
use crate::repr::i32_decoded;
use crate::repr::i32_encoded;
use crate::repr::i64_decoded;
use crate::repr::i64_encoded;
use crate::repr::i8_decoded;
use crate::repr::i8_encoded;
use crate::repr::le_bytes;
use crate::repr::le_val;
use crate::repr::lemma_be_bytes_len;
use crate::repr::lemma_be_val_bound;
use crate::repr::lemma_le_bytes_len;
use crate::repr::lemma_le_val_bound;
use crate::repr::lemma_pow256_monotone;
use crate::repr::lemma_pow256_values;
use crate::repr::pow256;
use crate::repr::reinterpret_i16;
use crate::repr::reinterpret_i32;
use crate::repr::reinterpret_i64;
use crate::repr::reinterpret_i8;
use crate::repr::reinterpret_u16;
use crate::repr::reinterpret_u32;
use crate::repr::reinterpret_u64;
use crate::repr::reinterpret_u8;
use crate::repr::u16_decoded;
use crate::repr::u16_encoded;
use crate::repr::u32_decoded;
use crate::repr::u32_encoded;
use crate::repr::u64_decoded;
use crate::repr::u64_encoded;
use crate::repr::u8_decoded;
use crate::repr::u8_encoded;

verus! {

/// Converts a byte array to an integer, and an integer to a byte array,
/// under one byte ordering.
///
/// Every decode requires a buffer of at least the integer kind's width and
/// reads exactly the first `width` bytes; every encode requires a
/// destination of at least the width and writes exactly the first `width`
/// positions, leaving the bytes beyond untouched. A signed kind shares the
/// byte layout of the unsigned kind of the same width: its value is the
/// two's-complement reinterpretation of the unsigned decode, and its
/// encode is that of its unsigned bit pattern.
pub trait Endian {
    /// True when this ordering places the most significant byte first.
    spec fn is_big_endian() -> bool;

    /// Converts bytes to u8.
    fn u8_from_bytes(bytes: &[u8]) -> (r: u8)
        requires
            bytes@.len() >= 1,
        ensures
            r == u8_decoded(Self::is_big_endian(), bytes@.subrange(0, 1)),
    ;

    /// Converts bytes to i8.
    fn i8_from_bytes(bytes: &[u8]) -> (r: i8)
        requires
            bytes@.len() >= 1,
        ensures
            r == i8_decoded(Self::is_big_endian(), bytes@.subrange(0, 1)),
    ;

    /// Converts bytes to u16.
    fn u16_from_bytes(bytes: &[u8]) -> (r: u16)
        requires
            bytes@.len() >= 2,
        ensures
            r == u16_decoded(Self::is_big_endian(), bytes@.subrange(0, 2)),
    ;

    /// Converts bytes to i16.
    fn i16_from_bytes(bytes: &[u8]) -> (r: i16)
        requires
            bytes@.len() >= 2,
        ensures
            r == i16_decoded(Self::is_big_endian(), bytes@.subrange(0, 2)),
    ;

    /// Converts bytes to u32.
    fn u32_from_bytes(bytes: &[u8]) -> (r: u32)
        requires
            bytes@.len() >= 4,
        ensures
            r == u32_decoded(Self::is_big_endian(), bytes@.subrange(0, 4)),
    ;

    /// Converts bytes to i32.
    fn i32_from_bytes(bytes: &[u8]) -> (r: i32)
        requires
            bytes@.len() >= 4,
        ensures
            r == i32_decoded(Self::is_big_endian(), bytes@.subrange(0, 4)),
    ;

    /// Converts bytes to u64.
    fn u64_from_bytes(bytes: &[u8]) -> (r: u64)
        requires
            bytes@.len() >= 8,
        ensures
            r == u64_decoded(Self::is_big_endian(), bytes@.subrange(0, 8)),
    ;

    /// Converts bytes to i64.
    fn i64_from_bytes(bytes: &[u8]) -> (r: i64)
        requires
            bytes@.len() >= 8,
        ensures
            r == i64_decoded(Self::is_big_endian(), bytes@.subrange(0, 8)),
    ;

    /// Converts u8 to bytes.
    fn u8_to_bytes(value: u8, destination: &mut [u8])
        requires
            old(destination)@.len() >= 1,
        ensures
            final(destination)@.len() == old(destination)@.len(),
            final(destination)@.subrange(0, 1) == u8_encoded(Self::is_big_endian(), value),
            forall|k: int|
                1 <= k < old(destination)@.len() ==> final(destination)@[k] == old(
                    destination,
                )@[k],
    ;

    /// Converts i8 to bytes.
    fn i8_to_bytes(value: i8, destination: &mut [u8])
        requires
            old(destination)@.len() >= 1,
        ensures
            final(destination)@.len() == old(destination)@.len(),
            final(destination)@.subrange(0, 1) == i8_encoded(Self::is_big_endian(), value),
            forall|k: int|
                1 <= k < old(destination)@.len() ==> final(destination)@[k] == old(
                    destination,
                )@[k],
    ;

    /// Converts u16 to bytes.
    fn u16_to_bytes(value: u16, destination: &mut [u8])
        requires
            old(destination)@.len() >= 2,
        ensures
            final(destination)@.len() == old(destination)@.len(),
            final(destination)@.subrange(0, 2) == u16_encoded(Self::is_big_endian(), value),
            forall|k: int|
                2 <= k < old(destination)@.len() ==> final(destination)@[k] == old(
                    destination,
                )@[k],
    ;

    /// Converts i16 to bytes.
    fn i16_to_bytes(value: i16, destination: &mut [u8])
        requires
            old(destination)@.len() >= 2,
        ensures
            final(destination)@.len() == old(destination)@.len(),
            final(destination)@.subrange(0, 2) == i16_encoded(Self::is_big_endian(), value),
            forall|k: int|
                2 <= k < old(destination)@.len() ==> final(destination)@[k] == old(
                    destination,
                )@[k],
    ;

    /// Converts u32 to bytes.
    fn u32_to_bytes(value: u32, destination: &mut [u8])
        requires
            old(destination)@.len() >= 4,
        ensures
            final(destination)@.len() == old(destination)@.len(),
            final(destination)@.subrange(0, 4) == u32_encoded(Self::is_big_endian(), value),
            forall|k: int|
                4 <= k < old(destination)@.len() ==> final(destination)@[k] == old(
                    destination,
                )@[k],
    ;

    /// Converts i32 to bytes.
    fn i32_to_bytes(value: i32, destination: &mut [u8])
        requires
            old(destination)@.len() >= 4,
        ensures
            final(destination)@.len() == old(destination)@.len(),
            final(destination)@.subrange(0, 4) == i32_encoded(Self::is_big_endian(), value),
            forall|k: int|
                4 <= k < old(destination)@.len() ==> final(destination)@[k] == old(
                    destination,
                )@[k],
    ;

    /// Converts u64 to bytes.
    fn u64_to_bytes(value: u64, destination: &mut [u8])
        requires
            old(destination)@.len() >= 8,
        ensures
            final(destination)@.len() == old(destination)@.len(),
            final(destination)@.subrange(0, 8) == u64_encoded(Self::is_big_endian(), value),
            forall|k: int|
                8 <= k < old(destination)@.len() ==> final(destination)@[k] == old(
                    destination,
                )@[k],
    ;

    /// Converts i64 to bytes.
    fn i64_to_bytes(value: i64, destination: &mut [u8])
        requires
            old(destination)@.len() >= 8,
        ensures
            final(destination)@.len() == old(destination)@.len(),
            final(destination)@.subrange(0, 8) == i64_encoded(Self::is_big_endian(), value),
            forall|k: int|
                8 <= k < old(destination)@.len() ==> final(destination)@[k] == old(
                    destination,
                )@[k],
    ;
}

/// Reads the first `width` bytes of `bytes` as a big-endian value.
fn decode_be(bytes: &[u8], width: usize) -> (r: u64)
    requires
        width <= 8,
        bytes@.len() >= width,
    ensures
        r as nat == be_val(bytes@.subrange(0, width as int)),
{
    let mut acc: u64 = 0;
    let mut i: usize = 0;
    while i < width
        invariant
            i <= width,
            width <= 8,
            bytes@.len() >= width,
            acc as nat == be_val(bytes@.subrange(0, i as int)),
            acc < pow256(i as nat),
        decreases width - i,
    {
        proof {
            lemma_pow256_values();
            lemma_pow256_monotone(i as nat, 7);
        }
        let b = bytes[i];
        let acc2 = acc * 256 + (b as u64);
        proof {
            let s = bytes@.subrange(0, (i + 1) as int);
            assert(s.drop_last() =~= bytes@.subrange(0, i as int));
            assert(s.last() == bytes@[i as int]);
            assert(acc2 as nat == be_val(s));
            assert(pow256((i + 1) as nat) == 256 * pow256(i as nat));
        }
        acc = acc2;
        i = i + 1;
    }
    acc
}

/// Reads the first `width` bytes of `bytes` as a little-endian value.
fn decode_le(bytes: &[u8], width: usize) -> (r: u64)
    requires
        width <= 8,
        bytes@.len() >= width,
    ensures
        r as nat == le_val(bytes@.subrange(0, width as int)),
{
    let mut acc: u64 = 0;
    let mut i: usize = width;
    while i > 0
        invariant
            i <= width,
            width <= 8,
            bytes@.len() >= width,
            acc as nat == le_val(bytes@.subrange(i as int, width as int)),
            acc < pow256((width - i) as nat),
        decreases i,
    {
        proof {
            lemma_pow256_values();
            lemma_pow256_monotone((width - i) as nat, 7);
        }
        let b = bytes[i - 1];
        let acc2 = acc * 256 + (b as u64);
        proof {
            let s = bytes@.subrange((i - 1) as int, width as int);
            assert(s.drop_first() =~= bytes@.subrange(i as int, width as int));
            assert(s[0] == bytes@[(i - 1) as int]);
            assert(acc2 as nat == le_val(s));
            assert(pow256((width - i + 1) as nat) == 256 * pow256((width - i) as nat));
        }
        acc = acc2;
        i = i - 1;
    }
    acc
}

/// Writes the `width` big-endian bytes of `value` into the front of
/// `destination`, leaving the bytes beyond `width` untouched.
fn encode_be(value: u64, width: usize, destination: &mut [u8])
    requires
        width <= 8,
        old(destination)@.len() >= width,
    ensures
        final(destination)@.len() == old(destination)@.len(),
        final(destination)@.subrange(0, width as int) == be_bytes(value as nat, width as nat),
        forall|k: int|
            width <= k < old(destination)@.len() ==> final(destination)@[k] == old(
                destination,
            )@[k],
{
    let mut v = value;
    let mut j: usize = 0;
    proof {
        assert(be_bytes(value as nat, width as nat) =~= be_bytes(value as nat, width as nat)
            + destination@.subrange(width as int, width as int));
    }
    while j < width
        invariant
            j <= width,
            width <= 8,
            destination@.len() == old(destination)@.len(),
            destination@.len() >= width,
            be_bytes(value as nat, width as nat) == be_bytes(v as nat, (width - j) as nat)
                + destination@.subrange((width - j) as int, width as int),
            forall|k: int|
                width <= k < destination@.len() ==> destination@[k] == old(destination)@[k],
        decreases width - j,
    {
        let ghost pre = destination@;
        let ghost vpre = v as nat;
        let b = (v % 256) as u8;
        destination[width - 1 - j] = b;
        v = v / 256;
        j = j + 1;
        proof {
            let idx = (width - j) as int;
            lemma_be_bytes_len(v as nat, (width - j) as nat);
            assert(destination@ == pre.update(idx, b));
            assert(be_bytes(vpre, (width - j + 1) as nat) == be_bytes(v as nat, (width
                - j) as nat).push(b));
            assert(destination@.subrange(idx, width as int) =~= seq![b] + pre.subrange(
                idx + 1,
                width as int,
            ));
            assert(be_bytes(v as nat, (width - j) as nat) + destination@.subrange(
                idx,
                width as int,
            ) =~= be_bytes(v as nat, (width - j) as nat).push(b) + pre.subrange(
                idx + 1,
                width as int,
            ));
        }
    }
    proof {
        assert(final(destination)@.subrange(0, width as int) =~= be_bytes(
            value as nat,
            width as nat,
        ) + final(destination)@.subrange(width as int, width as int));
    }
}

/// Writes the `width` little-endian bytes of `value` into the front of
/// `destination`, leaving the bytes beyond `width` untouched.
fn encode_le(value: u64, width: usize, destination: &mut [u8])
    requires
        width <= 8,
        old(destination)@.len() >= width,
    ensures
        final(destination)@.len() == old(destination)@.len(),
        final(destination)@.subrange(0, width as int) == le_bytes(value as nat, width as nat),
        forall|k: int|
            width <= k < old(destination)@.len() ==> final(destination)@[k] == old(
                destination,
            )@[k],
{
    let mut v = value;
    let mut j: usize = 0;
    proof {
        assert(le_bytes(value as nat, width as nat) =~= destination@.subrange(0, 0) + le_bytes(
            value as nat,
            width as nat,
        ));
    }
    while j < width
        invariant
            j <= width,
            width <= 8,
            destination@.len() == old(destination)@.len(),
            destination@.len() >= width,
            le_bytes(value as nat, width as nat) == destination@.subrange(0, j as int) + le_bytes(
                v as nat,
                (width - j) as nat,
            ),
            forall|k: int|
                width <= k < destination@.len() ==> destination@[k] == old(destination)@[k],
        decreases width - j,
    {
        let ghost pre = destination@;
        let ghost vpre = v as nat;
        let b = (v % 256) as u8;
        destination[j] = b;
        v = v / 256;
        j = j + 1;
        proof {
            lemma_le_bytes_len(v as nat, (width - j) as nat);
            assert(destination@ == pre.update((j - 1) as int, b));
            assert(le_bytes(vpre, (width - j + 1) as nat) == seq![b] + le_bytes(v as nat, (width
                - j) as nat));
            assert(destination@.subrange(0, j as int) =~= pre.subrange(0, (j - 1) as int) + seq![b]);
            assert(destination@.subrange(0, j as int) + le_bytes(v as nat, (width - j) as nat)
                =~= pre.subrange(0, (j - 1) as int) + (seq![b] + le_bytes(
                v as nat,
                (width - j) as nat,
            )));
        }
    }
    proof {
        assert(final(destination)@.subrange(0, width as int) =~= final(destination)@.subrange(
            0,
            width as int,
        ) + le_bytes(v as nat, 0));
    }
}

/// The ordering that places the most significant byte first.
pub struct BigEndian {}

impl Endian for BigEndian {
    open spec fn is_big_endian() -> bool {
        true
    }

    fn u8_from_bytes(bytes: &[u8]) -> (r: u8) {
        let v = decode_be(bytes, 1);
        proof {
            lemma_be_val_bound(bytes@.subrange(0, 1));
            lemma_pow256_values();
        }
        v as u8
    }

    fn i8_from_bytes(bytes: &[u8]) -> (r: i8) {
        let u = Self::u8_from_bytes(bytes);
        proof {
            lemma_pow256_values();
        }
        reinterpret_i8(u)
    }

    fn u16_from_bytes(bytes: &[u8]) -> (r: u16) {
        let v = decode_be(bytes, 2);
        proof {
            lemma_be_val_bound(bytes@.subrange(0, 2));
            lemma_pow256_values();
        }
        v as u16
    }

    fn i16_from_bytes(bytes: &[u8]) -> (r: i16) {
        let u = Self::u16_from_bytes(bytes);
        proof {
            lemma_pow256_values();
        }
        reinterpret_i16(u)
    }

    fn u32_from_bytes(bytes: &[u8]) -> (r: u32) {
        let v = decode_be(bytes, 4);
        proof {
            lemma_be_val_bound(bytes@.subrange(0, 4));
            lemma_pow256_values();
        }
        v as u32
    }

    fn i32_from_bytes(bytes: &[u8]) -> (r: i32) {
        let u = Self::u32_from_bytes(bytes);
        proof {
            lemma_pow256_values();
        }
        reinterpret_i32(u)
    }

    fn u64_from_bytes(bytes: &[u8]) -> (r: u64) {
        let v = decode_be(bytes, 8);
        proof {
            lemma_be_val_bound(bytes@.subrange(0, 8));
            lemma_pow256_values();
        }
        v
    }

    fn i64_from_bytes(bytes: &[u8]) -> (r: i64) {
        let u = Self::u64_from_bytes(bytes);
        proof {
            lemma_pow256_values();
        }
        reinterpret_i64(u)
    }

    fn u8_to_bytes(value: u8, destination: &mut [u8]) {
        encode_be(value as u64, 1, destination);
    }

    fn i8_to_bytes(value: i8, destination: &mut [u8]) {
        let u = reinterpret_u8(value);
        Self::u8_to_bytes(u, destination);
    }

    fn u16_to_bytes(value: u16, destination: &mut [u8]) {
        encode_be(value as u64, 2, destination);
    }

    fn i16_to_bytes(value: i16, destination: &mut [u8]) {
        let u = reinterpret_u16(value);
        Self::u16_to_bytes(u, destination);
    }

    fn u32_to_bytes(value: u32, destination: &mut [u8]) {
        encode_be(value as u64, 4, destination);
    }

    fn i32_to_bytes(value: i32, destination: &mut [u8]) {
        let u = reinterpret_u32(value);
        Self::u32_to_bytes(u, destination);
    }

    fn u64_to_bytes(value: u64, destination: &mut [u8]) {
        encode_be(value, 8, destination);
    }

    fn i64_to_bytes(value: i64, destination: &mut [u8]) {
        let u = reinterpret_u64(value);
        Self::u64_to_bytes(u, destination);
    }
}

/// The ordering that places the least significant byte first.
pub struct LittleEndian {}

impl Endian for LittleEndian {
    open spec fn is_big_endian() -> bool {
        false
    }

    fn u8_from_bytes(bytes: &[u8]) -> (r: u8) {
        let v = decode_le(bytes, 1);
        proof {
            lemma_le_val_bound(bytes@.subrange(0, 1));
            lemma_pow256_values();
        }
        v as u8
    }

    fn i8_from_bytes(bytes: &[u8]) -> (r: i8) {
        let u = Self::u8_from_bytes(bytes);
        proof {
            lemma_pow256_values();
        }
        reinterpret_i8(u)
    }

    fn u16_from_bytes(bytes: &[u8]) -> (r: u16) {
        let v = decode_le(bytes, 2);
        proof {
            lemma_le_val_bound(bytes@.subrange(0, 2));
            lemma_pow256_values();
        }
        v as u16
    }

    fn i16_from_bytes(bytes: &[u8]) -> (r: i16) {
        let u = Self::u16_from_bytes(bytes);
        proof {
            lemma_pow256_values();
        }
        reinterpret_i16(u)
    }

    fn u32_from_bytes(bytes: &[u8]) -> (r: u32) {
        let v = decode_le(bytes, 4);
        proof {
            lemma_le_val_bound(bytes@.subrange(0, 4));
            lemma_pow256_values();
        }
        v as u32
    }

    fn i32_from_bytes(bytes: &[u8]) -> (r: i32) {
        let u = Self::u32_from_bytes(bytes);
        proof {
            lemma_pow256_values();
        }
        reinterpret_i32(u)
    }

    fn u64_from_bytes(bytes: &[u8]) -> (r: u64) {
        let v = decode_le(bytes, 8);
        proof {
            lemma_le_val_bound(bytes@.subrange(0, 8));
            lemma_pow256_values();
        }
        v
    }

    fn i64_from_bytes(bytes: &[u8]) -> (r: i64) {
        let u = Self::u64_from_bytes(bytes);
        proof {
            lemma_pow256_values();
        }
        reinterpret_i64(u)
    }

    fn u8_to_bytes(value: u8, destination: &mut [u8]) {
        encode_le(value as u64, 1, destination);
    }

    fn i8_to_bytes(value: i8, destination: &mut [u8]) {
        let u = reinterpret_u8(value);
        Self::u8_to_bytes(u, destination);
    }

    fn u16_to_bytes(value: u16, destination: &mut [u8]) {
        encode_le(value as u64, 2, destination);
    }

    fn i16_to_bytes(value: i16, destination: &mut [u8]) {
        let u = reinterpret_u16(value);
        Self::u16_to_bytes(u, destination);
    }

    fn u32_to_bytes(value: u32, destination: &mut [u8]) {
        encode_le(value as u64, 4, destination);
    }

    fn i32_to_bytes(value: i32, destination: &mut [u8]) {
        let u = reinterpret_u32(value);
        Self::u32_to_bytes(u, destination);
    }

    fn u64_to_bytes(value: u64, destination: &mut [u8]) {
        encode_le(value, 8, destination);
    }

    fn i64_to_bytes(value: i64, destination: &mut [u8]) {
        let u = reinterpret_u64(value);
        Self::u64_to_bytes(u, destination);
    }
}

} // verus!
