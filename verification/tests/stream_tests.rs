use mm_binary_io::binary_read::BinaryRead;
use mm_binary_io::binary_write::BinaryWrite;
use mm_binary_io::cursor::ByteReader;
use mm_binary_io::cursor::ByteWriter;
use mm_binary_io::endian::BigEndian;
use mm_binary_io::endian::LittleEndian;
use mm_binary_io::error::IoError;
use mm_binary_io::from_bytes::FromBytes;
use mm_binary_io::read_integer::ReadInteger;
use mm_binary_io::seek::Seek;
use mm_binary_io::seek::SeekFrom;
use mm_binary_io::stream::ByteSink;
use mm_binary_io::stream::ByteSource;
use mm_binary_io::write_integer::WriteInteger;

#[test]
fn read_one_integer() {
    let data = vec![0xFF_u8, 0xFF, 0xFF, 0xFE];
    let mut reader = ByteReader::new(data);
    assert_eq!(-2_i32, reader.read_integer::<BigEndian, i32>().unwrap());
}

#[test]
fn read_byte_array_advances_by_three() {
    let data = vec![0x12_u8, 0x32, 0x56, 0x78];
    let mut reader = ByteReader::new(data);
    assert_eq!(vec![0x12, 0x32, 0x56], reader.read_byte_array(3).unwrap());
    assert_eq!(3, reader.stream_position());
}

#[test]
fn read_integer_array_leaves_the_tail() {
    let data = vec![0x12_u8, 0x32, 0x56, 0x78, 0x90, 0x12, 0xFF];
    let mut reader = ByteReader::new(data);
    assert_eq!(
        vec![0x1232_u16, 0x5678, 0x9012],
        reader.read_integer_array::<BigEndian, u16>(3).unwrap()
    );
    // One trailing byte is left unread.
    assert_eq!(6, reader.stream_position());
}

#[test]
fn read_mixed_kinds_in_sequence() {
    let data = vec![
        0x12, 0xFF, 0xFE, 0x12, 0x34, 0x56, 0x78, 0xFF, 0xFF, 0xFF, 0xFF, 0xFF, 0xFF, 0xFF, 0xFD,
    ];
    let mut reader = ByteReader::new(data);

    let v_u8 = u8::read_integer::<BigEndian, ByteReader>(&mut reader).unwrap();
    assert_eq!(0x12, v_u8);

    let v_i16 = i16::read_integer::<BigEndian, ByteReader>(&mut reader).unwrap();
    assert_eq!(-2, v_i16);

    let v_u32 = u32::read_integer::<BigEndian, ByteReader>(&mut reader).unwrap();
    assert_eq!(0x12345678, v_u32);

    let v_i64 = i64::read_integer::<BigEndian, ByteReader>(&mut reader).unwrap();
    assert_eq!(-3, v_i64);
}

#[test]
fn read_little_endian_integers() {
    let data = vec![0x34_u8, 0x12, 0xFC, 0xFF, 0xFF, 0xFF];
    let mut reader = ByteReader::new(data);
    assert_eq!(0x1234_u16, reader.read_integer::<LittleEndian, u16>().unwrap());
    assert_eq!(-4_i32, reader.read_integer::<LittleEndian, i32>().unwrap());
}

#[test]
fn short_stream_fails_the_read() {
    let data = vec![0x12_u8, 0x34];
    let mut reader = ByteReader::new(data);
    assert_eq!(Err(IoError::UnexpectedEof), reader.read_integer::<BigEndian, u32>());
    // Nothing was consumed for the failing read.
    assert_eq!(0, reader.stream_position());
}

#[test]
fn short_stream_fails_the_byte_array() {
    let data = vec![0x12_u8, 0x34];
    let mut reader = ByteReader::new(data);
    assert_eq!(Err(IoError::UnexpectedEof), reader.read_byte_array(3));
    assert_eq!(0, reader.stream_position());
}

#[test]
fn short_stream_fails_the_array_after_whole_elements() {
    // Five bytes hold two 16-bit integers; the third fails, and the bytes
    // of the first two stay consumed.
    let data = vec![0x00_u8, 0x01, 0x00, 0x02, 0x00];
    let mut reader = ByteReader::new(data);
    assert_eq!(
        Err(IoError::UnexpectedEof),
        reader.read_integer_array::<BigEndian, u16>(3)
    );
    assert_eq!(4, reader.stream_position());
}

#[test]
fn write_one_integer_of_each_kind() {
    let mut writer = ByteWriter::new();
    writer.write_integer::<BigEndian, _>(0x12_u8).unwrap();
    assert_eq!(vec![0x12], writer.into_inner());

    let mut writer = ByteWriter::new();
    writer.write_integer::<BigEndian, _>(-2_i8).unwrap();
    assert_eq!(vec![0xFE], writer.into_inner());

    let mut writer = ByteWriter::new();
    writer.write_integer::<BigEndian, _>(0x1234_u16).unwrap();
    assert_eq!(vec![0x12, 0x34], writer.into_inner());

    let mut writer = ByteWriter::new();
    writer.write_integer::<BigEndian, _>(-3_i16).unwrap();
    assert_eq!(vec![0xFF, 0xFD], writer.into_inner());

    let mut writer = ByteWriter::new();
    writer.write_integer::<BigEndian, _>(0x12345678_u32).unwrap();
    assert_eq!(vec![0x12, 0x34, 0x56, 0x78], writer.into_inner());

    let mut writer = ByteWriter::new();
    writer.write_integer::<BigEndian, _>(-4_i32).unwrap();
    assert_eq!(vec![0xFF, 0xFF, 0xFF, 0xFC], writer.into_inner());

    let mut writer = ByteWriter::new();
    writer.write_integer::<BigEndian, _>(0x1234567812345678_u64).unwrap();
    assert_eq!(vec![0x12, 0x34, 0x56, 0x78, 0x12, 0x34, 0x56, 0x78], writer.into_inner());

    let mut writer = ByteWriter::new();
    writer.write_integer::<BigEndian, _>(-5_i64).unwrap();
    assert_eq!(vec![0xFF, 0xFF, 0xFF, 0xFF, 0xFF, 0xFF, 0xFF, 0xFB], writer.into_inner());
}

#[test]
fn write_through_the_write_integer_trait() {
    let mut writer = ByteWriter::new();
    0x12_u8.write_integer::<BigEndian, ByteWriter>(&mut writer).unwrap();
    assert_eq!(vec![0x12], writer.into_inner());

    let mut writer = ByteWriter::new();
    (-1_i8).write_integer::<BigEndian, ByteWriter>(&mut writer).unwrap();
    assert_eq!(vec![0xFF], writer.into_inner());

    let mut writer = ByteWriter::new();
    0x1234_u16.write_integer::<LittleEndian, ByteWriter>(&mut writer).unwrap();
    assert_eq!(vec![0x34, 0x12], writer.into_inner());
}

#[test]
fn write_an_integer_array() {
    let mut writer = ByteWriter::new();
    writer
        .write_integer_array::<BigEndian, u16>(&[0x1232, 0x5678, 0x9012])
        .unwrap();
    assert_eq!(vec![0x12, 0x32, 0x56, 0x78, 0x90, 0x12], writer.into_inner());
}

#[test]
fn write_then_read_round_trip() {
    let mut writer = ByteWriter::new();
    writer.write_integer::<LittleEndian, _>(0x1234_u16).unwrap();
    writer.write_integer::<LittleEndian, _>(-4_i32).unwrap();
    writer
        .write_integer_array::<LittleEndian, u32>(&[1, 2, 3])
        .unwrap();
    let mut reader = ByteReader::new(writer.into_inner());
    assert_eq!(0x1234_u16, reader.read_integer::<LittleEndian, u16>().unwrap());
    assert_eq!(-4_i32, reader.read_integer::<LittleEndian, i32>().unwrap());
    assert_eq!(
        vec![1_u32, 2, 3],
        reader.read_integer_array::<LittleEndian, u32>(3).unwrap()
    );
}

#[test]
fn write_past_the_limit_fails() {
    let mut writer = ByteWriter::with_limit(3);
    assert_eq!(
        Err(IoError::LimitExceeded),
        writer.write_integer::<BigEndian, _>(0x12345678_u32)
    );
    // Nothing was written.
    assert_eq!(0, writer.stream_position());
    assert_eq!(Vec::<u8>::new(), writer.into_inner());
}

#[test]
fn write_array_stops_at_the_failing_element() {
    let mut writer = ByteWriter::with_limit(5);
    assert_eq!(
        Err(IoError::LimitExceeded),
        writer.write_integer_array::<BigEndian, u16>(&[0x0001, 0x0002, 0x0003])
    );
    // The first two elements stay written.
    assert_eq!(4, writer.stream_position());
    assert_eq!(vec![0x00, 0x01, 0x00, 0x02], writer.into_inner());
}

#[test]
fn write_all_bytes_or_nothing() {
    let mut writer = ByteWriter::with_limit(2);
    assert_eq!(Ok(()), writer.write_all(&[0xAB, 0xCD]));
    assert_eq!(Err(IoError::LimitExceeded), writer.write_all(&[0xEF]));
    assert_eq!(vec![0xAB, 0xCD], writer.into_inner());
}

#[test]
fn read_exact_matches_read_byte_array() {
    let data = vec![0x01_u8, 0x02, 0x03];
    let mut reader = ByteReader::new(data);
    assert_eq!(vec![0x01, 0x02], reader.read_exact(2).unwrap());
    assert_eq!(vec![0x03], reader.read_byte_array(1).unwrap());
}

#[test]
fn seek_moves_the_read_position() {
    let data = vec![0x10_u8, 0x20, 0x30, 0x40, 0x50];
    let mut reader = ByteReader::new(data);
    assert_eq!(3, reader.seek(SeekFrom::Start(3)).unwrap());
    assert_eq!(0x40, reader.read_integer::<BigEndian, u8>().unwrap());
    assert_eq!(2, reader.seek(SeekFrom::Current(-2)).unwrap());
    assert_eq!(0x30, reader.read_integer::<BigEndian, u8>().unwrap());
    assert_eq!(4, reader.seek(SeekFrom::End(-1)).unwrap());
    assert_eq!(0x50, reader.read_integer::<BigEndian, u8>().unwrap());
}

#[test]
fn seek_before_the_start_fails() {
    let data = vec![0x10_u8, 0x20];
    let mut reader = ByteReader::new(data);
    assert_eq!(Err(IoError::InvalidSeek), reader.seek(SeekFrom::Current(-1)));
    assert_eq!(Err(IoError::InvalidSeek), reader.seek(SeekFrom::End(-3)));
    assert_eq!(0, reader.stream_position());
}

#[test]
fn seek_past_the_end_then_read_fails() {
    let data = vec![0x10_u8, 0x20];
    let mut reader = ByteReader::new(data);
    assert_eq!(5, reader.seek(SeekFrom::Start(5)).unwrap());
    assert_eq!(Err(IoError::UnexpectedEof), reader.read_integer::<BigEndian, u8>());
}

#[test]
fn seek_then_overwrite() {
    let mut writer = ByteWriter::new();
    writer.write_integer::<BigEndian, _>(0x11223344_u32).unwrap();
    assert_eq!(1, writer.seek(SeekFrom::Start(1)).unwrap());
    writer.write_integer::<BigEndian, _>(0xAB_u8).unwrap();
    assert_eq!(vec![0x11, 0xAB, 0x33, 0x44], writer.into_inner());
}

#[test]
fn seek_past_the_end_then_write_fills_with_zeros() {
    let mut writer = ByteWriter::new();
    assert_eq!(3, writer.seek(SeekFrom::Start(3)).unwrap());
    writer.write_integer::<BigEndian, _>(0xAB_u8).unwrap();
    assert_eq!(vec![0x00, 0x00, 0x00, 0xAB], writer.into_inner());
}

#[test]
fn decode_from_a_buffer_by_kind() {
    let data = vec![0x12_u8, 0x34, 0x56, 0x78];
    assert_eq!(0x12_u8, u8::from_bytes::<BigEndian>(&data));
    assert_eq!(0x1234_u16, u16::from_bytes::<BigEndian>(&data));
    assert_eq!(0x12345678_u32, u32::from_bytes::<BigEndian>(&data));
    assert_eq!(0x78563412_u32, u32::from_bytes::<LittleEndian>(&data));
    let negative = vec![0xFF_u8, 0xFD];
    assert_eq!(-3_i16, i16::from_bytes::<BigEndian>(&negative));
    assert_eq!(-2_i8, i8::from_bytes::<LittleEndian>(&vec![0xFE]));
    let wide = vec![0xFF_u8, 0xFF, 0xFF, 0xFF, 0xFF, 0xFF, 0xFF, 0xFB];
    assert_eq!(-5_i64, i64::from_bytes::<BigEndian>(&wide));
    assert_eq!(0xFFFFFFFFFFFFFFFB_u64, u64::from_bytes::<BigEndian>(&wide));
    assert_eq!(-4_i32, i32::from_bytes::<BigEndian>(&vec![0xFF, 0xFF, 0xFF, 0xFC]));
}

#[test]
fn reading_zero_bytes_succeeds() {
    let mut reader = ByteReader::new(vec![0x01]);
    assert_eq!(Vec::<u8>::new(), reader.read_byte_array(0).unwrap());
    assert_eq!(0, reader.stream_position());
    assert_eq!(
        Vec::<u16>::new(),
        reader.read_integer_array::<BigEndian, u16>(0).unwrap()
    );
}
