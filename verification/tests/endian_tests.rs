use mm_binary_io::endian::BigEndian;
use mm_binary_io::endian::Endian;
use mm_binary_io::endian::LittleEndian;

#[test]
fn big_endian_from_bytes_unsigned() {
    assert_eq!(0x12, BigEndian::u8_from_bytes(&vec![0x12]));
    assert_eq!(0x1234, BigEndian::u16_from_bytes(&vec![0x12, 0x34]));
    assert_eq!(0x12345678, BigEndian::u32_from_bytes(&vec![0x12, 0x34, 0x56, 0x78]));
    assert_eq!(
        0x1234567812345678,
        BigEndian::u64_from_bytes(&vec![0x12, 0x34, 0x56, 0x78, 0x12, 0x34, 0x56, 0x78])
    );
}

#[test]
fn big_endian_from_bytes_signed() {
    assert_eq!(-2, BigEndian::i8_from_bytes(&vec![0xFE]));
    assert_eq!(-3, BigEndian::i16_from_bytes(&vec![0xFF, 0xFD]));
    assert_eq!(-4, BigEndian::i32_from_bytes(&vec![0xFF, 0xFF, 0xFF, 0xFC]));
    assert_eq!(
        -5,
        BigEndian::i64_from_bytes(&vec![0xFF, 0xFF, 0xFF, 0xFF, 0xFF, 0xFF, 0xFF, 0xFB])
    );
}

#[test]
fn big_endian_decode_scenarios() {
    // A 32-bit signed decode of an all-but-one-bits pattern.
    assert_eq!(-2, BigEndian::i32_from_bytes(&vec![0xFF, 0xFF, 0xFF, 0xFE]));
    // A 32-bit unsigned decode.
    assert_eq!(0x12345678, BigEndian::u32_from_bytes(&vec![0x12, 0x34, 0x56, 0x78]));
}

#[test]
fn big_endian_to_bytes_unsigned() {
    let mut v_u8 = vec![0; 1];
    BigEndian::u8_to_bytes(0x12, &mut v_u8);
    assert_eq!(0x12, v_u8[0]);

    let mut v_u16 = vec![0; 2];
    BigEndian::u16_to_bytes(0x1234, &mut v_u16);
    assert_eq!(vec![0x12, 0x34], v_u16);

    let mut v_u32 = vec![0; 4];
    BigEndian::u32_to_bytes(0x12345678, &mut v_u32);
    assert_eq!(vec![0x12, 0x34, 0x56, 0x78], v_u32);

    let mut v_u64 = vec![0; 8];
    BigEndian::u64_to_bytes(0x1234567812345678, &mut v_u64);
    assert_eq!(vec![0x12, 0x34, 0x56, 0x78, 0x12, 0x34, 0x56, 0x78], v_u64);
}

#[test]
fn big_endian_to_bytes_signed() {
    let mut v_i8 = vec![0; 1];
    BigEndian::i8_to_bytes(-1, &mut v_i8);
    assert_eq!(0xFF, v_i8[0]);

    let mut v_i16 = vec![0; 2];
    BigEndian::i16_to_bytes(-2, &mut v_i16);
    assert_eq!(vec![0xFF, 0xFE], v_i16);

    let mut v_i32 = vec![0; 4];
    BigEndian::i32_to_bytes(-3, &mut v_i32);
    assert_eq!(vec![0xFF, 0xFF, 0xFF, 0xFD], v_i32);

    let mut v_i64 = vec![0; 8];
    BigEndian::i64_to_bytes(-4, &mut v_i64);
    assert_eq!(vec![0xFF, 0xFF, 0xFF, 0xFF, 0xFF, 0xFF, 0xFF, 0xFC], v_i64);
}

#[test]
fn little_endian_from_bytes_unsigned() {
    assert_eq!(0x12, LittleEndian::u8_from_bytes(&vec![0x12]));
    assert_eq!(0x1234, LittleEndian::u16_from_bytes(&vec![0x34, 0x12]));
    assert_eq!(0x12345678, LittleEndian::u32_from_bytes(&vec![0x78, 0x56, 0x34, 0x12]));
    assert_eq!(
        0x1234567812345678,
        LittleEndian::u64_from_bytes(&vec![0x78, 0x56, 0x34, 0x12, 0x78, 0x56, 0x34, 0x12])
    );
}

#[test]
fn little_endian_from_bytes_signed() {
    assert_eq!(-2, LittleEndian::i8_from_bytes(&vec![0xFE]));
    assert_eq!(-3, LittleEndian::i16_from_bytes(&vec![0xFD, 0xFF]));
    assert_eq!(-4, LittleEndian::i32_from_bytes(&vec![0xFC, 0xFF, 0xFF, 0xFF]));
    assert_eq!(
        -5,
        LittleEndian::i64_from_bytes(&vec![0xFB, 0xFF, 0xFF, 0xFF, 0xFF, 0xFF, 0xFF, 0xFF])
    );
}

#[test]
fn little_endian_to_bytes() {
    let mut v_u16 = vec![0; 2];
    LittleEndian::u16_to_bytes(0x1234, &mut v_u16);
    assert_eq!(vec![0x34, 0x12], v_u16);

    let mut v_u32 = vec![0; 4];
    LittleEndian::u32_to_bytes(0x12345678, &mut v_u32);
    assert_eq!(vec![0x78, 0x56, 0x34, 0x12], v_u32);

    let mut v_u64 = vec![0; 8];
    LittleEndian::u64_to_bytes(0x1234567812345678, &mut v_u64);
    assert_eq!(vec![0x78, 0x56, 0x34, 0x12, 0x78, 0x56, 0x34, 0x12], v_u64);

    let mut v_i32 = vec![0; 4];
    LittleEndian::i32_to_bytes(-3, &mut v_i32);
    assert_eq!(vec![0xFD, 0xFF, 0xFF, 0xFF], v_i32);
}

#[test]
fn encode_writes_exactly_the_width() {
    // Bytes beyond the kind's width stay untouched.
    let mut buf = vec![0xAA; 6];
    BigEndian::u16_to_bytes(0x1234, &mut buf);
    assert_eq!(vec![0x12, 0x34, 0xAA, 0xAA, 0xAA, 0xAA], buf);

    let mut buf = vec![0xAA; 6];
    LittleEndian::u32_to_bytes(0x12345678, &mut buf);
    assert_eq!(vec![0x78, 0x56, 0x34, 0x12, 0xAA, 0xAA], buf);
}

#[test]
fn decode_reads_exactly_the_width() {
    // Bytes beyond the kind's width are ignored.
    assert_eq!(0x1234, BigEndian::u16_from_bytes(&vec![0x12, 0x34, 0x99, 0x99]));
    assert_eq!(0x3412, LittleEndian::u16_from_bytes(&vec![0x12, 0x34, 0x99, 0x99]));
}

#[test]
fn eight_bit_has_no_byte_order() {
    // A single-byte kind looks the same under both orderings.
    let mut big = vec![0; 1];
    let mut little = vec![0; 1];
    BigEndian::i8_to_bytes(-1, &mut big);
    LittleEndian::i8_to_bytes(-1, &mut little);
    assert_eq!(big, little);
    assert_eq!(0xFF, big[0]);
}

#[test]
fn encode_u64_big_endian_scenario() {
    let mut buf = vec![0; 8];
    BigEndian::u64_to_bytes(0x1234567812345678, &mut buf);
    assert_eq!(vec![0x12, 0x34, 0x56, 0x78, 0x12, 0x34, 0x56, 0x78], buf);
}
