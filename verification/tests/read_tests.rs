use endian_codec::error::FixedStringError;
use endian_codec::stream::ByteReader;
use endian_codec::{Endian, ReadE};

#[test]
fn u8_tests() {
    assert_eq!(120, ByteReader::new(vec![120]).read_to_u8().unwrap());
}

#[test]
fn u16_tests() {
    assert_eq!(30882, ByteReader::new(vec![162, 120]).read_le_to_u16().unwrap());
    assert_eq!(30882, ByteReader::new(vec![120, 162]).read_be_to_u16().unwrap());
}

#[test]
fn u32_tests() {
    assert_eq!(
        987654321u32,
        ByteReader::new(vec![177, 104, 222, 58]).read_le_to_u32().unwrap()
    );
    assert_eq!(
        987654321u32,
        ByteReader::new(vec![58, 222, 104, 177]).read_be_to_u32().unwrap()
    );
}

#[test]
fn f32_tests() {
    assert_eq!(
        768f32,
        f32::from_bits(
            ByteReader::new(vec![0x00, 0x00, 0x40, 0x44])
                .read_le_to_f32_bits()
                .unwrap()
        )
    );
    assert_eq!(
        768f32,
        f32::from_bits(
            ByteReader::new(vec![0x44, 0x40, 0x00, 0x00])
                .read_be_to_f32_bits()
                .unwrap()
        )
    );
}

#[test]
fn f64_tests() {
    assert_eq!(
        91024.5f64,
        f64::from_bits(
            ByteReader::new(vec![0x00, 0x00, 0x00, 0x00, 0x08, 0x39, 0xF6, 0x40])
                .read_le_to_f64_bits()
                .unwrap()
        )
    );
    assert_eq!(
        91024.5f64,
        f64::from_bits(
            ByteReader::new(vec![0x40, 0xF6, 0x39, 0x08, 0x00, 0x00, 0x00, 0x00])
                .read_be_to_f64_bits()
                .unwrap()
        )
    );
}

#[test]
fn literal_vectors_with_explicit_order() {
    assert_eq!(
        30882,
        ByteReader::new(vec![0xA2, 0x78]).read_to_u16(Endian::LittleEndian).unwrap()
    );
    assert_eq!(
        30882,
        ByteReader::new(vec![0x78, 0xA2]).read_to_u16(Endian::BigEndian).unwrap()
    );
    assert_eq!(
        987654321,
        ByteReader::new(vec![0xB1, 0x68, 0xDE, 0x3A]).read_to_u32(Endian::LittleEndian).unwrap()
    );
    assert_eq!(
        987654321,
        ByteReader::new(vec![0x3A, 0xDE, 0x68, 0xB1]).read_to_u32(Endian::BigEndian).unwrap()
    );
    assert_eq!(
        0x4440_0000,
        ByteReader::new(vec![0x00, 0x00, 0x40, 0x44])
            .read_to_f32_bits(Endian::LittleEndian)
            .unwrap()
    );
    assert_eq!(
        0x40F6_3908_0000_0000,
        ByteReader::new(vec![0x00, 0x00, 0x00, 0x00, 0x08, 0x39, 0xF6, 0x40])
            .read_to_f64_bits(Endian::LittleEndian)
            .unwrap()
    );
    assert_eq!(
        0x40F6_3908_0000_0000,
        ByteReader::new(vec![0x40, 0xF6, 0x39, 0x08, 0x00, 0x00, 0x00, 0x00])
            .read_to_f64_bits(Endian::BigEndian)
            .unwrap()
    );
}

#[test]
fn signed_reads_use_twos_complement() {
    assert_eq!(-1, ByteReader::new(vec![0xFF]).read_to_i8().unwrap());
    assert_eq!(-128, ByteReader::new(vec![0x80]).read_to_i8().unwrap());
    assert_eq!(127, ByteReader::new(vec![0x7F]).read_to_i8().unwrap());
    assert_eq!(-2, ByteReader::new(vec![0xFE, 0xFF]).read_le_to_i16().unwrap());
    assert_eq!(-2, ByteReader::new(vec![0xFF, 0xFE]).read_be_to_i16().unwrap());
    assert_eq!(
        i16::MIN,
        ByteReader::new(vec![0x80, 0x00]).read_to_i16(Endian::BigEndian).unwrap()
    );
    assert_eq!(
        0x1234,
        ByteReader::new(vec![0x34, 0x12]).read_to_i16(Endian::LittleEndian).unwrap()
    );
    assert_eq!(
        -987654321,
        ByteReader::new(vec![0x4F, 0x97, 0x21, 0xC5]).read_le_to_i32().unwrap()
    );
    assert_eq!(
        -987654321,
        ByteReader::new(vec![0xC5, 0x21, 0x97, 0x4F]).read_be_to_i32().unwrap()
    );
    assert_eq!(
        i32::MIN,
        ByteReader::new(vec![0x00, 0x00, 0x00, 0x80]).read_to_i32(Endian::LittleEndian).unwrap()
    );
    assert_eq!(
        i32::MAX,
        ByteReader::new(vec![0x7F, 0xFF, 0xFF, 0xFF]).read_to_i32(Endian::BigEndian).unwrap()
    );
}

#[test]
fn float_patterns_pass_through_unchanged() {
    let nan = 0x7FC0_0001u32;
    let mut reader = ByteReader::new(vec![0x7F, 0xC0, 0x00, 0x01, 0xFF, 0x80, 0x00, 0x00]);
    assert_eq!(nan, reader.read_be_to_f32_bits().unwrap());
    let bits = reader.read_be_to_f32_bits().unwrap();
    assert_eq!(0xFF80_0000, bits);
    assert_eq!(f32::NEG_INFINITY, f32::from_bits(bits));
    let signalling = 0x7FF0_0000_0000_0001u64;
    let mut reader = ByteReader::new(vec![0x01, 0, 0, 0, 0, 0, 0xF0, 0x7F]);
    assert_eq!(signalling, reader.read_le_to_f64_bits().unwrap());
}

#[test]
fn reads_take_exactly_their_width() {
    let mut reader = ByteReader::new(vec![1, 2, 3, 4, 5, 6, 7, 8, 9, 10, 11, 12, 13, 14, 15]);
    assert_eq!(15, reader.remaining());
    assert_eq!(1, reader.read_to_u8().unwrap());
    assert_eq!(14, reader.remaining());
    assert_eq!(0x0203, reader.read_be_to_u16().unwrap());
    assert_eq!(12, reader.remaining());
    assert_eq!(0x0706_0504, reader.read_le_to_u32().unwrap());
    assert_eq!(8, reader.remaining());
    assert_eq!(0x08090A0B_0C0D0E0F, reader.read_be_to_f64_bits().unwrap());
    assert_eq!(0, reader.remaining());
}

#[test]
fn short_source_fails_with_transport_failure() {
    let kind = std::io::ErrorKind::UnexpectedEof;
    assert_eq!(kind, ByteReader::new(vec![]).read_to_u8().unwrap_err().kind());
    assert_eq!(kind, ByteReader::new(vec![]).read_to_i8().unwrap_err().kind());
    assert_eq!(kind, ByteReader::new(vec![1]).read_le_to_u16().unwrap_err().kind());
    assert_eq!(kind, ByteReader::new(vec![1]).read_be_to_u16().unwrap_err().kind());
    assert_eq!(kind, ByteReader::new(vec![1]).read_le_to_i16().unwrap_err().kind());
    assert_eq!(kind, ByteReader::new(vec![1]).read_be_to_i16().unwrap_err().kind());
    assert_eq!(kind, ByteReader::new(vec![1, 2, 3]).read_le_to_u32().unwrap_err().kind());
    assert_eq!(kind, ByteReader::new(vec![1, 2, 3]).read_be_to_u32().unwrap_err().kind());
    assert_eq!(kind, ByteReader::new(vec![1, 2, 3]).read_le_to_i32().unwrap_err().kind());
    assert_eq!(kind, ByteReader::new(vec![1, 2, 3]).read_be_to_i32().unwrap_err().kind());
    assert_eq!(kind, ByteReader::new(vec![1, 2, 3]).read_le_to_f32_bits().unwrap_err().kind());
    assert_eq!(kind, ByteReader::new(vec![1, 2, 3]).read_be_to_f32_bits().unwrap_err().kind());
    assert_eq!(
        kind,
        ByteReader::new(vec![1, 2, 3, 4, 5, 6, 7]).read_le_to_f64_bits().unwrap_err().kind()
    );
    assert_eq!(
        kind,
        ByteReader::new(vec![1, 2, 3, 4, 5, 6, 7]).read_be_to_f64_bits().unwrap_err().kind()
    );
    for endian in [Endian::BigEndian, Endian::LittleEndian] {
        assert!(ByteReader::new(vec![1]).read_to_u16(endian).is_err());
        assert!(ByteReader::new(vec![1]).read_to_i16(endian).is_err());
        assert!(ByteReader::new(vec![1, 2, 3]).read_to_u32(endian).is_err());
        assert!(ByteReader::new(vec![1, 2, 3]).read_to_i32(endian).is_err());
        assert!(ByteReader::new(vec![1, 2, 3]).read_to_f32_bits(endian).is_err());
        assert!(ByteReader::new(vec![1, 2, 3, 4]).read_to_f64_bits(endian).is_err());
    }
}

#[test]
fn failed_read_drains_the_source() {
    let mut reader = ByteReader::new(vec![1, 2, 3]);
    assert!(reader.read_le_to_u32().is_err());
    assert_eq!(0, reader.remaining());
    assert!(reader.read_to_u8().is_err());
}

#[test]
fn fixed_string_hello() {
    let mut reader = ByteReader::new(vec![72, 101, 108, 108, 111]);
    assert_eq!("Hello", reader.read_to_fixed_string(5).unwrap());
    assert_eq!(0, reader.remaining());
}

#[test]
fn fixed_string_reads_only_its_length() {
    let mut reader = ByteReader::new("héllo wörld".as_bytes().to_vec());
    assert_eq!("héllo", reader.read_to_fixed_string(6).unwrap());
    assert_eq!(7, reader.remaining());
    assert_eq!("", reader.read_to_fixed_string(0).unwrap());
    assert_eq!(7, reader.remaining());
    assert_eq!(" wörld", reader.read_to_fixed_string(7).unwrap());
}

#[test]
fn fixed_string_rejects_invalid_utf8_after_taking_the_bytes() {
    let mut reader = ByteReader::new(vec![0x48, 0xFF, 0x6C, 0x21]);
    match reader.read_to_fixed_string(3) {
        Err(FixedStringError::Encoding(e)) => assert_eq!(1, e.utf8_error().valid_up_to()),
        other => panic!("unexpected outcome: {:?}", other),
    }
    assert_eq!(1, reader.remaining());
    assert_eq!(0x21, reader.read_to_u8().unwrap());
}

#[test]
fn fixed_string_rejects_a_split_character() {
    let mut reader = ByteReader::new("é".as_bytes().to_vec());
    assert!(matches!(
        reader.read_to_fixed_string(1),
        Err(FixedStringError::Encoding(_))
    ));
}

#[test]
fn fixed_string_on_short_source_is_a_transport_failure() {
    let mut reader = ByteReader::new(vec![0xFF, 0xFF]);
    match reader.read_to_fixed_string(3) {
        Err(FixedStringError::IoError(e)) => {
            assert_eq!(std::io::ErrorKind::UnexpectedEof, e.kind())
        }
        other => panic!("unexpected outcome: {:?}", other),
    }
    assert_eq!(0, reader.remaining());
}
