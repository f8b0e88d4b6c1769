use endian_codec::error::{MagicNumberCheckError, WrongMagicNumber};
use endian_codec::magic::{compare_magic_number, same_bytes};
use endian_codec::stream::ByteReader;
use endian_codec::{MagicNumberCheck, ReadE};

#[test]
fn check_valid() {
    let ref mut reader = ByteReader::new(vec![b'T', b'E', b'S', b'T']);
    reader
        .check_magic_number(&[b'T', b'E', b'S', b'T'])
        .unwrap();
}

#[test]
fn check_invalid() {
    let ref mut reader = ByteReader::new(vec![b'T', b'E', b'S', b'T']);
    match reader.check_magic_number(&[b'N', b'E', b'S', b'T']) {
        Ok(_) => panic!("Expected an error"),
        Err(MagicNumberCheckError::MagicNumber(_)) => {}
        Err(_) => panic!("Unexpected error"),
    }
}

#[test]
fn success_leaves_the_source_right_after_the_magic_number() {
    let mut reader = ByteReader::new(vec![0x89, b'P', b'N', b'G', 0x0D, 0x0A]);
    reader.check_magic_number(&[0x89, b'P', b'N', b'G']).unwrap();
    assert_eq!(2, reader.remaining());
    assert_eq!(0x0D0A, reader.read_be_to_u16().unwrap());
}

#[test]
fn mismatch_carries_both_sequences_and_takes_the_bytes() {
    let mut reader = ByteReader::new(vec![b'T', b'E', b'S', b'T', 7]);
    match reader.check_magic_number(&[b'N', b'E', b'S', b'T']) {
        Err(MagicNumberCheckError::MagicNumber(WrongMagicNumber { expected, read })) => {
            assert_eq!(expected, vec![b'N', b'E', b'S', b'T']);
            assert_eq!(read, vec![b'T', b'E', b'S', b'T']);
        }
        other => panic!("unexpected outcome: {:?}", other),
    }
    assert_eq!(1, reader.remaining());
    assert_eq!(7, reader.read_to_u8().unwrap());
}

#[test]
fn mismatch_in_the_last_byte_is_found() {
    let mut reader = ByteReader::new(vec![1, 2, 3, 4]);
    assert!(matches!(
        reader.check_magic_number(&[1, 2, 3, 5]),
        Err(MagicNumberCheckError::MagicNumber(_))
    ));
}

#[test]
fn short_source_is_a_transport_failure_not_a_mismatch() {
    let mut reader = ByteReader::new(vec![b'T', b'E']);
    match reader.check_magic_number(&[b'T', b'E', b'S', b'T']) {
        Err(MagicNumberCheckError::IoError(e)) => {
            assert_eq!(std::io::ErrorKind::UnexpectedEof, e.kind())
        }
        other => panic!("unexpected outcome: {:?}", other),
    }
    assert_eq!(0, reader.remaining());
}

#[test]
fn empty_magic_number_always_matches() {
    let mut reader = ByteReader::new(vec![1, 2]);
    reader.check_magic_number(&[]).unwrap();
    assert_eq!(2, reader.remaining());
    let mut empty = ByteReader::new(vec![]);
    empty.check_magic_number(&[]).unwrap();
}

#[test]
fn compare_magic_number_on_plain_bytes() {
    assert!(compare_magic_number(vec![1, 2, 3], &[1, 2, 3]).is_ok());
    let e = compare_magic_number(vec![1, 2, 3], &[1, 2, 4]).unwrap_err();
    assert_eq!(e.expected, vec![1, 2, 4]);
    assert_eq!(e.read, vec![1, 2, 3]);
    let e = compare_magic_number(vec![1, 2], &[1, 2, 3]).unwrap_err();
    assert_eq!(e.expected, vec![1, 2, 3]);
    assert_eq!(e.read, vec![1, 2]);
}

#[test]
fn same_bytes_compares_length_and_content() {
    assert!(same_bytes(&[], &[]));
    assert!(same_bytes(&[1, 2, 3], &[1, 2, 3]));
    assert!(!same_bytes(&[1, 2, 3], &[1, 2]));
    assert!(!same_bytes(&[1, 2], &[1, 2, 3]));
    assert!(!same_bytes(&[9, 2, 3], &[1, 2, 3]));
    assert!(!same_bytes(&[1, 2, 3], &[1, 2, 9]));
}
