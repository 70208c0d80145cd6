//! The laws the codec obeys, proved once over the model of `repr`.
//!
//! Decoding the encoding of a value gives the value back, for both
//! orderings and for signed values through their two's-complement pattern;
//! encoding the decoding of a byte sequence gives the sequence back; the
//! big-endian bytes of a value are the little-endian bytes reversed; and a
//! signed value and its same-width unsigned bit pattern encode to the same
//! bytes.

use vstd::arithmetic::div_mod::lemma_fundamental_div_mod_converse;
use vstd::prelude::*;

use crate::repr::be_bytes;
use crate::repr::be_val;
use crate::repr::decode_val;
use crate::repr::encode_bytes;
use crate::repr::i16_decoded;
use crate::repr::i16_encoded;
use crate::repr::i32_decoded;
use crate::repr::i32_encoded;
use crate::repr::i64_decoded;
use crate::repr::i64_encoded;
use crate::repr::i8_decoded;
use crate::repr::i8_encoded;
use crate::repr::le_bytes;
use crate::repr::le_val;
use crate::repr::lemma_be_bytes_len;
use crate::repr::lemma_le_bytes_len;
use crate::repr::lemma_pow256_values;
use crate::repr::pow256;
use crate::repr::to_signed;
use crate::repr::to_unsigned;
use crate::repr::u16_decoded;
use crate::repr::u16_encoded;
use crate::repr::u32_decoded;
use crate::repr::u32_encoded;
use crate::repr::u64_decoded;
use crate::repr::u64_encoded;
use crate::repr::u8_decoded;
use crate::repr::u8_encoded;

verus! {

/// Decoding the little-endian encoding of a value gives the value back.
pub proof fn lemma_le_decode_encode(v: nat, w: nat)
    requires
        v < pow256(w),
    ensures
        le_val(le_bytes(v, w)) == v,
    decreases w,
{
    if w > 0 {
        let b = (v % 256) as u8;
        let rest = le_bytes(v / 256, (w - 1) as nat);
        assert(v / 256 < pow256((w - 1) as nat)) by {
            lemma_div256_bound(v, (w - 1) as nat);
        }
        lemma_le_decode_encode(v / 256, (w - 1) as nat);
        assert((seq![b] + rest).drop_first() =~= rest);
        assert(le_val(le_bytes(v, w)) == b as nat + 256 * (v / 256));
    }
}

/// A value below `256 * pow256(w)` divided by 256 is below `pow256(w)`.
proof fn lemma_div256_bound(v: nat, w: nat)
    requires
        v < 256 * pow256(w),
    ensures
        v / 256 < pow256(w),
{
    assert(v / 256 < pow256(w)) by (nonlinear_arith)
        requires
            v < 256 * pow256(w),
    ;
}

/// Decoding the big-endian encoding of a value gives the value back.
pub proof fn lemma_be_decode_encode(v: nat, w: nat)
    requires
        v < pow256(w),
    ensures
        be_val(be_bytes(v, w)) == v,
    decreases w,
{
    if w > 0 {
        let b = (v % 256) as u8;
        let inner = be_bytes(v / 256, (w - 1) as nat);
        assert(v / 256 < pow256((w - 1) as nat)) by {
            lemma_div256_bound(v, (w - 1) as nat);
        }
        lemma_be_decode_encode(v / 256, (w - 1) as nat);
        assert(inner.push(b).drop_last() =~= inner);
        assert(inner.push(b).last() == b);
        assert(be_val(be_bytes(v, w)) == 256 * (v / 256) + b as nat);
    }
}

/// Decoding the encoding of a value gives the value back, either ordering.
pub proof fn lemma_decode_encode(big: bool, v: nat, w: nat)
    requires
        v < pow256(w),
    ensures
        decode_val(big, encode_bytes(big, v, w)) == v,
{
    if big {
        lemma_be_decode_encode(v, w);
    } else {
        lemma_le_decode_encode(v, w);
    }
}

/// Encoding the little-endian value of a sequence gives the sequence back.
pub proof fn lemma_le_encode_decode(s: Seq<u8>)
    ensures
        le_bytes(le_val(s), s.len()) == s,
    decreases s.len(),
{
    if s.len() > 0 {
        let rest = s.drop_first();
        let x = le_val(s);
        lemma_fundamental_div_mod_converse(x as int, 256, le_val(rest) as int, s[0] as int);
        lemma_le_encode_decode(rest);
        assert(le_bytes(x, s.len()) =~= s);
    } else {
        assert(le_bytes(le_val(s), s.len()) =~= s);
    }
}

/// Encoding the big-endian value of a sequence gives the sequence back.
pub proof fn lemma_be_encode_decode(s: Seq<u8>)
    ensures
        be_bytes(be_val(s), s.len()) == s,
    decreases s.len(),
{
    if s.len() > 0 {
        let inner = s.drop_last();
        let x = be_val(s);
        lemma_fundamental_div_mod_converse(x as int, 256, be_val(inner) as int, s.last() as int);
        lemma_be_encode_decode(inner);
        assert(be_bytes(x, s.len()) =~= s);
    } else {
        assert(be_bytes(be_val(s), s.len()) =~= s);
    }
}

/// Encoding the value of a sequence gives the sequence back, either ordering.
pub proof fn lemma_encode_decode(big: bool, s: Seq<u8>)
    ensures
        encode_bytes(big, decode_val(big, s), s.len()) == s,
{
    if big {
        lemma_be_encode_decode(s);
    } else {
        lemma_le_encode_decode(s);
    }
}

/// Reinterpreting the two's-complement pattern of a signed value as signed
/// gives the value back.
pub proof fn lemma_signed_round_trip(v: int, w: nat)
    requires
        w >= 1,
        -(pow256(w) as int) / 2 <= v < pow256(w) / 2,
    ensures
        to_unsigned(v, w) < pow256(w),
        to_signed(to_unsigned(v, w), w) == v,
{
    assert(pow256(w) == 256 * pow256((w - 1) as nat));
}

/// Reinterpreting an unsigned pattern as signed and back gives the pattern.
pub proof fn lemma_unsigned_round_trip(u: nat, w: nat)
    requires
        w >= 1,
        u < pow256(w),
    ensures
        to_unsigned(to_signed(u, w), w) == u,
{
    assert(pow256(w) == 256 * pow256((w - 1) as nat));
}

/// Round trip for unsigned 8-bit values: decoding the encoding of a value
/// gives the value back, under either ordering.
pub proof fn lemma_u8_round_trip(big: bool, v: u8)
    ensures
        u8_decoded(big, u8_encoded(big, v)) == v,
{
    lemma_pow256_values();
    lemma_decode_encode(big, v as nat, 1);
}

/// Round trip for signed 8-bit values.
pub proof fn lemma_i8_round_trip(big: bool, v: i8)
    ensures
        i8_decoded(big, i8_encoded(big, v)) == v,
{
    lemma_pow256_values();
    lemma_signed_round_trip(v as int, 1);
    lemma_decode_encode(big, to_unsigned(v as int, 1), 1);
}

/// Round trip for unsigned 16-bit values.
pub proof fn lemma_u16_round_trip(big: bool, v: u16)
    ensures
        u16_decoded(big, u16_encoded(big, v)) == v,
{
    lemma_pow256_values();
    lemma_decode_encode(big, v as nat, 2);
}

/// Round trip for signed 16-bit values.
pub proof fn lemma_i16_round_trip(big: bool, v: i16)
    ensures
        i16_decoded(big, i16_encoded(big, v)) == v,
{
    lemma_pow256_values();
    lemma_signed_round_trip(v as int, 2);
    lemma_decode_encode(big, to_unsigned(v as int, 2), 2);
}

/// Round trip for unsigned 32-bit values.
pub proof fn lemma_u32_round_trip(big: bool, v: u32)
    ensures
        u32_decoded(big, u32_encoded(big, v)) == v,
{
    lemma_pow256_values();
    lemma_decode_encode(big, v as nat, 4);
}

/// Round trip for signed 32-bit values.
pub proof fn lemma_i32_round_trip(big: bool, v: i32)
    ensures
        i32_decoded(big, i32_encoded(big, v)) == v,
{
    lemma_pow256_values();
    lemma_signed_round_trip(v as int, 4);
    lemma_decode_encode(big, to_unsigned(v as int, 4), 4);
}

/// Round trip for unsigned 64-bit values.
pub proof fn lemma_u64_round_trip(big: bool, v: u64)
    ensures
        u64_decoded(big, u64_encoded(big, v)) == v,
{
    lemma_pow256_values();
    lemma_decode_encode(big, v as nat, 8);
}

/// Round trip for signed 64-bit values.
pub proof fn lemma_i64_round_trip(big: bool, v: i64)
    ensures
        i64_decoded(big, i64_encoded(big, v)) == v,
{
    lemma_pow256_values();
    lemma_signed_round_trip(v as int, 8);
    lemma_decode_encode(big, to_unsigned(v as int, 8), 8);
}

/// The big-endian bytes of a value are its little-endian bytes reversed.
pub proof fn lemma_endian_reversal(v: nat, w: nat)
    ensures
        be_bytes(v, w) == le_bytes(v, w).reverse(),
    decreases w,
{
    if w == 0 {
        assert(be_bytes(v, w) =~= le_bytes(v, w).reverse());
    } else {
        let b = (v % 256) as u8;
        let tail = le_bytes(v / 256, (w - 1) as nat);
        lemma_endian_reversal(v / 256, (w - 1) as nat);
        lemma_le_bytes_len(v / 256, (w - 1) as nat);
        lemma_be_bytes_len(v / 256, (w - 1) as nat);
        assert((seq![b] + tail).reverse() =~= tail.reverse().push(b));
        assert(be_bytes(v, w) =~= le_bytes(v, w).reverse());
    }
}

/// Endian reversal for 16-bit unsigned values: the big-endian encoding is
/// the little-endian encoding with its bytes reversed.
pub proof fn lemma_u16_reversal(v: u16)
    ensures
        u16_encoded(true, v) == u16_encoded(false, v).reverse(),
{
    lemma_endian_reversal(v as nat, 2);
}

/// Endian reversal for 16-bit signed values.
pub proof fn lemma_i16_reversal(v: i16)
    ensures
        i16_encoded(true, v) == i16_encoded(false, v).reverse(),
{
    lemma_endian_reversal(to_unsigned(v as int, 2), 2);
}

/// Endian reversal for 32-bit unsigned values.
pub proof fn lemma_u32_reversal(v: u32)
    ensures
        u32_encoded(true, v) == u32_encoded(false, v).reverse(),
{
    lemma_endian_reversal(v as nat, 4);
}

/// Endian reversal for 32-bit signed values.
pub proof fn lemma_i32_reversal(v: i32)
    ensures
        i32_encoded(true, v) == i32_encoded(false, v).reverse(),
{
    lemma_endian_reversal(to_unsigned(v as int, 4), 4);
}

/// Endian reversal for 64-bit unsigned values.
pub proof fn lemma_u64_reversal(v: u64)
    ensures
        u64_encoded(true, v) == u64_encoded(false, v).reverse(),
{
    lemma_endian_reversal(v as nat, 8);
}

/// Endian reversal for 64-bit signed values.
pub proof fn lemma_i64_reversal(v: i64)
    ensures
        i64_encoded(true, v) == i64_encoded(false, v).reverse(),
{
    lemma_endian_reversal(to_unsigned(v as int, 8), 8);
}

/// A signed 8-bit value and its two's-complement pattern encode to the
/// same bytes, under either ordering.
pub proof fn lemma_i8_unsigned_layout(big: bool, v: i8, u: u8)
    requires
        u as nat == to_unsigned(v as int, 1),
    ensures
        i8_encoded(big, v) == u8_encoded(big, u),
{
}

/// A signed 16-bit value and its two's-complement pattern encode to the
/// same bytes, under either ordering.
pub proof fn lemma_i16_unsigned_layout(big: bool, v: i16, u: u16)
    requires
        u as nat == to_unsigned(v as int, 2),
    ensures
        i16_encoded(big, v) == u16_encoded(big, u),
{
}

/// A signed 32-bit value and its two's-complement pattern encode to the
/// same bytes, under either ordering.
pub proof fn lemma_i32_unsigned_layout(big: bool, v: i32, u: u32)
    requires
        u as nat == to_unsigned(v as int, 4),
    ensures
        i32_encoded(big, v) == u32_encoded(big, u),
{
}

/// A signed 64-bit value and its two's-complement pattern encode to the
/// same bytes, under either ordering.
pub proof fn lemma_i64_unsigned_layout(big: bool, v: i64, u: u64)
    requires
        u as nat == to_unsigned(v as int, 8),
    ensures
        i64_encoded(big, v) == u64_encoded(big, u),
{
}

} // verus!
