//! Mathematical model of fixed-width integer representation.
//!
//! A byte sequence denotes a non-negative value under one of two orderings:
//! little-endian ([`le_val`], first byte least significant) or big-endian
//! ([`be_val`], last byte least significant). [`le_bytes`] and [`be_bytes`]
//! give the `w`-byte sequence of a value, and [`to_signed`] / [`to_unsigned`]
//! reinterpret between a signed value and its two's-complement bit pattern.
//! The per-kind `*_decoded` / `*_encoded` functions specialise this model to
//! the eight integer kinds; every contract in the crate is stated over them.

use vstd::prelude::*;

verus! {

/// 256 to the power `w`: the number of values representable in `w` bytes.
pub open spec fn pow256(w: nat) -> nat
    decreases w,
{
    if w == 0 {
        1
    } else {
        256 * pow256((w - 1) as nat)
    }
}

/// The value of `s` read little-endian: the first byte is least significant.
pub open spec fn le_val(s: Seq<u8>) -> nat
    decreases s.len(),
{
    if s.len() == 0 {
        0
    } else {
        s[0] as nat + 256 * le_val(s.drop_first())
    }
}

/// The value of `s` read big-endian: the last byte is least significant.
pub open spec fn be_val(s: Seq<u8>) -> nat
    decreases s.len(),
{
    if s.len() == 0 {
        0
    } else {
        256 * be_val(s.drop_last()) + s.last() as nat
    }
}

/// The `w` little-endian bytes of `v` (high bytes beyond `w` are dropped).
pub open spec fn le_bytes(v: nat, w: nat) -> Seq<u8>
    decreases w,
{
    if w == 0 {
        Seq::empty()
    } else {
        seq![(v % 256) as u8] + le_bytes(v / 256, (w - 1) as nat)
    }
}

/// The `w` big-endian bytes of `v` (high bytes beyond `w` are dropped).
pub open spec fn be_bytes(v: nat, w: nat) -> Seq<u8>
    decreases w,
{
    if w == 0 {
        Seq::empty()
    } else {
        be_bytes(v / 256, (w - 1) as nat).push((v % 256) as u8)
    }
}

/// The value of `s` under the chosen ordering; `big` selects big-endian.
pub open spec fn decode_val(big: bool, s: Seq<u8>) -> nat {
    if big {
        be_val(s)
    } else {
        le_val(s)
    }
}

/// The `w` bytes of `v` under the chosen ordering; `big` selects big-endian.
pub open spec fn encode_bytes(big: bool, v: nat, w: nat) -> Seq<u8> {
    if big {
        be_bytes(v, w)
    } else {
        le_bytes(v, w)
    }
}

/// The signed value whose `w`-byte two's-complement pattern is `u`.
pub open spec fn to_signed(u: nat, w: nat) -> int
    recommends
        u < pow256(w),
{
    if u < pow256(w) / 2 {
        u as int
    } else {
        u as int - pow256(w)
    }
}

/// The `w`-byte two's-complement pattern of the signed value `v`.
pub open spec fn to_unsigned(v: int, w: nat) -> nat
    recommends
        -(pow256(w) as int) / 2 <= v < pow256(w) / 2,
{
    if v >= 0 {
        v as nat
    } else {
        (v + pow256(w)) as nat
    }
}

/// Concrete values of `pow256` for the widths the crate handles.
pub proof fn lemma_pow256_values()
    ensures
        pow256(0) == 1,
        pow256(1) == 0x100,
        pow256(2) == 0x1_0000,
        pow256(3) == 0x100_0000,
        pow256(4) == 0x1_0000_0000,
        pow256(5) == 0x100_0000_0000,
        pow256(6) == 0x1_0000_0000_0000,
        pow256(7) == 0x100_0000_0000_0000,
        pow256(8) == 0x1_0000_0000_0000_0000,
{
    reveal_with_fuel(pow256, 9);
}

/// `pow256` grows with the width.
pub proof fn lemma_pow256_monotone(a: nat, b: nat)
    requires
        a <= b,
    ensures
        pow256(a) <= pow256(b),
    decreases b,
{
    if a < b {
        lemma_pow256_monotone(a, (b - 1) as nat);
    }
}

/// A sequence of `w` bytes denotes a value below `pow256(w)`, little-endian.
pub proof fn lemma_le_val_bound(s: Seq<u8>)
    ensures
        le_val(s) < pow256(s.len()),
    decreases s.len(),
{
    if s.len() > 0 {
        lemma_le_val_bound(s.drop_first());
    }
}

/// A sequence of `w` bytes denotes a value below `pow256(w)`, big-endian.
pub proof fn lemma_be_val_bound(s: Seq<u8>)
    ensures
        be_val(s) < pow256(s.len()),
    decreases s.len(),
{
    if s.len() > 0 {
        lemma_be_val_bound(s.drop_last());
    }
}

/// Encoding a value into `w` bytes yields exactly `w` bytes, little-endian.
pub proof fn lemma_le_bytes_len(v: nat, w: nat)
    ensures
        le_bytes(v, w).len() == w,
    decreases w,
{
    if w > 0 {
        lemma_le_bytes_len(v / 256, (w - 1) as nat);
    }
}

/// Encoding a value into `w` bytes yields exactly `w` bytes, big-endian.
pub proof fn lemma_be_bytes_len(v: nat, w: nat)
    ensures
        be_bytes(v, w).len() == w,
    decreases w,
{
    if w > 0 {
        lemma_be_bytes_len(v / 256, (w - 1) as nat);
    }
}

/// Encoding a value into `w` bytes yields exactly `w` bytes.
pub proof fn lemma_encode_bytes_len(big: bool, v: nat, w: nat)
    ensures
        encode_bytes(big, v, w).len() == w,
{
    if big {
        lemma_be_bytes_len(v, w);
    } else {
        lemma_le_bytes_len(v, w);
    }
}

/// Bytes decoded as an unsigned 8-bit integer under the chosen ordering.
pub open spec fn u8_decoded(big: bool, s: Seq<u8>) -> u8 {
    (decode_val(big, s) % 0x100) as u8
}

/// Bytes decoded as a signed 8-bit integer under the chosen ordering.
pub open spec fn i8_decoded(big: bool, s: Seq<u8>) -> i8 {
    to_signed(decode_val(big, s) % 0x100, 1) as i8
}

/// Bytes decoded as an unsigned 16-bit integer under the chosen ordering.
pub open spec fn u16_decoded(big: bool, s: Seq<u8>) -> u16 {
    (decode_val(big, s) % 0x1_0000) as u16
}

/// Bytes decoded as a signed 16-bit integer under the chosen ordering.
pub open spec fn i16_decoded(big: bool, s: Seq<u8>) -> i16 {
    to_signed(decode_val(big, s) % 0x1_0000, 2) as i16
}

/// Bytes decoded as an unsigned 32-bit integer under the chosen ordering.
pub open spec fn u32_decoded(big: bool, s: Seq<u8>) -> u32 {
    (decode_val(big, s) % 0x1_0000_0000) as u32
}

/// Bytes decoded as a signed 32-bit integer under the chosen ordering.
pub open spec fn i32_decoded(big: bool, s: Seq<u8>) -> i32 {
    to_signed(decode_val(big, s) % 0x1_0000_0000, 4) as i32
}

/// Bytes decoded as an unsigned 64-bit integer under the chosen ordering.
pub open spec fn u64_decoded(big: bool, s: Seq<u8>) -> u64 {
    (decode_val(big, s) % 0x1_0000_0000_0000_0000) as u64
}

/// Bytes decoded as a signed 64-bit integer under the chosen ordering.
pub open spec fn i64_decoded(big: bool, s: Seq<u8>) -> i64 {
    to_signed(decode_val(big, s) % 0x1_0000_0000_0000_0000, 8) as i64
}

/// The byte sequence of an unsigned 8-bit integer under the chosen ordering.
pub open spec fn u8_encoded(big: bool, v: u8) -> Seq<u8> {
    encode_bytes(big, v as nat, 1)
}

/// The byte sequence of a signed 8-bit integer under the chosen ordering.
pub open spec fn i8_encoded(big: bool, v: i8) -> Seq<u8> {
    encode_bytes(big, to_unsigned(v as int, 1), 1)
}

/// The byte sequence of an unsigned 16-bit integer under the chosen ordering.
pub open spec fn u16_encoded(big: bool, v: u16) -> Seq<u8> {
    encode_bytes(big, v as nat, 2)
}

/// The byte sequence of a signed 16-bit integer under the chosen ordering.
pub open spec fn i16_encoded(big: bool, v: i16) -> Seq<u8> {
    encode_bytes(big, to_unsigned(v as int, 2), 2)
}

/// The byte sequence of an unsigned 32-bit integer under the chosen ordering.
pub open spec fn u32_encoded(big: bool, v: u32) -> Seq<u8> {
    encode_bytes(big, v as nat, 4)
}

/// The byte sequence of a signed 32-bit integer under the chosen ordering.
pub open spec fn i32_encoded(big: bool, v: i32) -> Seq<u8> {
    encode_bytes(big, to_unsigned(v as int, 4), 4)
}

/// The byte sequence of an unsigned 64-bit integer under the chosen ordering.
pub open spec fn u64_encoded(big: bool, v: u64) -> Seq<u8> {
    encode_bytes(big, v as nat, 8)
}

/// The byte sequence of a signed 64-bit integer under the chosen ordering.
pub open spec fn i64_encoded(big: bool, v: i64) -> Seq<u8> {
    encode_bytes(big, to_unsigned(v as int, 8), 8)
}

/// Reinterprets an 8-bit pattern as a signed value, two's complement.
pub fn reinterpret_i8(u: u8) -> (r: i8)
    ensures
        r as int == to_signed(u as nat, 1),
{
    proof {
        lemma_pow256_values();
    }
    if u < 0x80 {
        u as i8
    } else {
        (u - 0x80) as i8 - 0x7F - 1
    }
}

/// Reinterprets a signed 8-bit value as its two's-complement pattern.
pub fn reinterpret_u8(v: i8) -> (r: u8)
    ensures
        r as nat == to_unsigned(v as int, 1),
{
    proof {
        lemma_pow256_values();
    }
    if v >= 0 {
        v as u8
    } else {
        ((v + 0x7F) + 1) as u8 + 0x80
    }
}

/// Reinterprets a 16-bit pattern as a signed value, two's complement.
pub fn reinterpret_i16(u: u16) -> (r: i16)
    ensures
        r as int == to_signed(u as nat, 2),
{
    proof {
        lemma_pow256_values();
    }
    if u < 0x8000 {
        u as i16
    } else {
        (u - 0x8000) as i16 - 0x7FFF - 1
    }
}

/// Reinterprets a signed 16-bit value as its two's-complement pattern.
pub fn reinterpret_u16(v: i16) -> (r: u16)
    ensures
        r as nat == to_unsigned(v as int, 2),
{
    proof {
        lemma_pow256_values();
    }
    if v >= 0 {
        v as u16
    } else {
        ((v + 0x7FFF) + 1) as u16 + 0x8000
    }
}

/// Reinterprets a 32-bit pattern as a signed value, two's complement.
pub fn reinterpret_i32(u: u32) -> (r: i32)
    ensures
        r as int == to_signed(u as nat, 4),
{
    proof {
        lemma_pow256_values();
    }
    if u < 0x8000_0000 {
        u as i32
    } else {
        (u - 0x8000_0000) as i32 - 0x7FFF_FFFF - 1
    }
}

/// Reinterprets a signed 32-bit value as its two's-complement pattern.
pub fn reinterpret_u32(v: i32) -> (r: u32)
    ensures
        r as nat == to_unsigned(v as int, 4),
{
    proof {
        lemma_pow256_values();
    }
    if v >= 0 {
        v as u32
    } else {
        ((v + 0x7FFF_FFFF) + 1) as u32 + 0x8000_0000
    }
}

/// Reinterprets a 64-bit pattern as a signed value, two's complement.
pub fn reinterpret_i64(u: u64) -> (r: i64)
    ensures
        r as int == to_signed(u as nat, 8),
{
    proof {
        lemma_pow256_values();
    }
    if u < 0x8000_0000_0000_0000 {
        u as i64
    } else {
        (u - 0x8000_0000_0000_0000) as i64 - 0x7FFF_FFFF_FFFF_FFFF - 1
    }
}

/// Reinterprets a signed 64-bit value as its two's-complement pattern.
pub fn reinterpret_u64(v: i64) -> (r: u64)
    ensures
        r as nat == to_unsigned(v as int, 8),
{
    proof {
        lemma_pow256_values();
    }
    if v >= 0 {
        v as u64
    } else {
        ((v + 0x7FFF_FFFF_FFFF_FFFF) + 1) as u64 + 0x8000_0000_0000_0000
    }
}

} // verus!
