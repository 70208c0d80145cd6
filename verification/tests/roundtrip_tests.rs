use mm_binary_io::endian::BigEndian;
use mm_binary_io::endian::Endian;
use mm_binary_io::endian::LittleEndian;

fn round_trip_u8<TEndian: Endian>(v: u8) {
    let mut buf = vec![0; 1];
    TEndian::u8_to_bytes(v, &mut buf);
    assert_eq!(v, TEndian::u8_from_bytes(&buf));
}

fn round_trip_i8<TEndian: Endian>(v: i8) {
    let mut buf = vec![0; 1];
    TEndian::i8_to_bytes(v, &mut buf);
    assert_eq!(v, TEndian::i8_from_bytes(&buf));
}

fn round_trip_u16<TEndian: Endian>(v: u16) {
    let mut buf = vec![0; 2];
    TEndian::u16_to_bytes(v, &mut buf);
    assert_eq!(v, TEndian::u16_from_bytes(&buf));
}

fn round_trip_i16<TEndian: Endian>(v: i16) {
    let mut buf = vec![0; 2];
    TEndian::i16_to_bytes(v, &mut buf);
    assert_eq!(v, TEndian::i16_from_bytes(&buf));
}

fn round_trip_u32<TEndian: Endian>(v: u32) {
    let mut buf = vec![0; 4];
    TEndian::u32_to_bytes(v, &mut buf);
    assert_eq!(v, TEndian::u32_from_bytes(&buf));
}

fn round_trip_i32<TEndian: Endian>(v: i32) {
    let mut buf = vec![0; 4];
    TEndian::i32_to_bytes(v, &mut buf);
    assert_eq!(v, TEndian::i32_from_bytes(&buf));
}

fn round_trip_u64<TEndian: Endian>(v: u64) {
    let mut buf = vec![0; 8];
    TEndian::u64_to_bytes(v, &mut buf);
    assert_eq!(v, TEndian::u64_from_bytes(&buf));
}

fn round_trip_i64<TEndian: Endian>(v: i64) {
    let mut buf = vec![0; 8];
    TEndian::i64_to_bytes(v, &mut buf);
    assert_eq!(v, TEndian::i64_from_bytes(&buf));
}

#[test]
fn round_trip_unsigned_big_endian() {
    for v in [0u8, 1, 0x7F, 0x80, u8::MAX] {
        round_trip_u8::<BigEndian>(v);
    }
    for v in [0u16, 1, 0x1234, 0x7FFF, 0x8000, u16::MAX] {
        round_trip_u16::<BigEndian>(v);
    }
    for v in [0u32, 1, 0x12345678, 0x7FFF_FFFF, 0x8000_0000, u32::MAX] {
        round_trip_u32::<BigEndian>(v);
    }
    for v in [0u64, 1, 0x1234567812345678, 0x7FFF_FFFF_FFFF_FFFF, 0x8000_0000_0000_0000, u64::MAX]
    {
        round_trip_u64::<BigEndian>(v);
    }
}

#[test]
fn round_trip_unsigned_little_endian() {
    for v in [0u8, 1, 0x7F, 0x80, u8::MAX] {
        round_trip_u8::<LittleEndian>(v);
    }
    for v in [0u16, 1, 0x1234, 0x7FFF, 0x8000, u16::MAX] {
        round_trip_u16::<LittleEndian>(v);
    }
    for v in [0u32, 1, 0x12345678, 0x7FFF_FFFF, 0x8000_0000, u32::MAX] {
        round_trip_u32::<LittleEndian>(v);
    }
    for v in [0u64, 1, 0x1234567812345678, 0x7FFF_FFFF_FFFF_FFFF, 0x8000_0000_0000_0000, u64::MAX]
    {
        round_trip_u64::<LittleEndian>(v);
    }
}

#[test]
fn round_trip_signed_big_endian() {
    for v in [0i8, 1, -1, i8::MIN, i8::MAX] {
        round_trip_i8::<BigEndian>(v);
    }
    for v in [0i16, 1, -1, -2, i16::MIN, i16::MAX] {
        round_trip_i16::<BigEndian>(v);
    }
    for v in [0i32, 1, -1, -2, i32::MIN, i32::MAX] {
        round_trip_i32::<BigEndian>(v);
    }
    for v in [0i64, 1, -1, -2, i64::MIN, i64::MAX] {
        round_trip_i64::<BigEndian>(v);
    }
}

#[test]
fn round_trip_signed_little_endian() {
    for v in [0i8, 1, -1, i8::MIN, i8::MAX] {
        round_trip_i8::<LittleEndian>(v);
    }
    for v in [0i16, 1, -1, -2, i16::MIN, i16::MAX] {
        round_trip_i16::<LittleEndian>(v);
    }
    for v in [0i32, 1, -1, -2, i32::MIN, i32::MAX] {
        round_trip_i32::<LittleEndian>(v);
    }
    for v in [0i64, 1, -1, -2, i64::MIN, i64::MAX] {
        round_trip_i64::<LittleEndian>(v);
    }
}

#[test]
fn big_endian_is_little_endian_reversed() {
    for v in [0u16, 1, 0x1234, u16::MAX] {
        let mut big = vec![0; 2];
        let mut little = vec![0; 2];
        BigEndian::u16_to_bytes(v, &mut big);
        LittleEndian::u16_to_bytes(v, &mut little);
        little.reverse();
        assert_eq!(big, little);
    }
    for v in [0u32, 1, 0x12345678, u32::MAX] {
        let mut big = vec![0; 4];
        let mut little = vec![0; 4];
        BigEndian::u32_to_bytes(v, &mut big);
        LittleEndian::u32_to_bytes(v, &mut little);
        little.reverse();
        assert_eq!(big, little);
    }
    for v in [0u64, 1, 0x1234567812345678, u64::MAX] {
        let mut big = vec![0; 8];
        let mut little = vec![0; 8];
        BigEndian::u64_to_bytes(v, &mut big);
        LittleEndian::u64_to_bytes(v, &mut little);
        little.reverse();
        assert_eq!(big, little);
    }
    for v in [0i32, -1, -0x12345678, i32::MIN] {
        let mut big = vec![0; 4];
        let mut little = vec![0; 4];
        BigEndian::i32_to_bytes(v, &mut big);
        LittleEndian::i32_to_bytes(v, &mut little);
        little.reverse();
        assert_eq!(big, little);
    }
}

#[test]
fn signed_and_unsigned_share_the_byte_layout() {
    for v in [0i16, 1, -1, -2, i16::MIN, i16::MAX] {
        let mut signed = vec![0; 2];
        let mut unsigned = vec![0; 2];
        BigEndian::i16_to_bytes(v, &mut signed);
        BigEndian::u16_to_bytes(v as u16, &mut unsigned);
        assert_eq!(signed, unsigned);
    }
    for v in [0i32, 1, -1, -2, i32::MIN, i32::MAX] {
        let mut signed = vec![0; 4];
        let mut unsigned = vec![0; 4];
        LittleEndian::i32_to_bytes(v, &mut signed);
        LittleEndian::u32_to_bytes(v as u32, &mut unsigned);
        assert_eq!(signed, unsigned);
    }
    for v in [0i64, 1, -1, -2, i64::MIN, i64::MAX] {
        let mut signed = vec![0; 8];
        let mut unsigned = vec![0; 8];
        BigEndian::i64_to_bytes(v, &mut signed);
        BigEndian::u64_to_bytes(v as u64, &mut unsigned);
        assert_eq!(signed, unsigned);
    }
    for v in [0i8, 1, -1, i8::MIN, i8::MAX] {
        let mut signed = vec![0; 1];
        let mut unsigned = vec![0; 1];
        LittleEndian::i8_to_bytes(v, &mut signed);
        LittleEndian::u8_to_bytes(v as u8, &mut unsigned);
        assert_eq!(signed, unsigned);
    }
}
