//! Conversions between numbers and their fixed-width byte layouts.
//!
//! Every conversion puts the number together, or takes it apart, byte by byte
//! with shifts, so the result does not depend on the byte order of the
//! machine. A float travels as its IEEE-754 bit pattern: 32 bits for single
//! precision, which are converted like an unsigned 32-bit number, and 64 bits
//! for double precision.

use crate::endian::Endian;
use crate::layout::{
    be_value, bytes_of, le_value, lemma_bytes_round_trip, lemma_limits, lemma_value_of_concat,
    lemma_value_round_trip, limit, pattern_of, signed_of, value_of,
};
use vstd::prelude::*;

verus! {

proof fn lemma_unfold_2(s: Seq<u8>)
    requires
        s.len() == 2,
    ensures
        be_value(s) == 0x100 * s[0] + s[1],
        le_value(s) == s[0] + 0x100 * s[1],
{
    reveal_with_fuel(be_value, 3);
    reveal_with_fuel(le_value, 3);
}

proof fn lemma_unfold_4(s: Seq<u8>)
    requires
        s.len() == 4,
    ensures
        be_value(s) == 0x100_0000 * s[0] + 0x1_0000 * s[1] + 0x100 * s[2] + s[3],
        le_value(s) == s[0] + 0x100 * s[1] + 0x1_0000 * s[2] + 0x100_0000 * s[3],
{
    let front = s.take(2);
    let back = s.skip(2);
    lemma_limits();
    lemma_unfold_2(front);
    lemma_unfold_2(back);
    lemma_value_of_concat(front, back);
    assert(front + back =~= s);
    assert(le_value(s) == le_value(front) + limit(front.len()) * le_value(back));
}

proof fn lemma_unfold_8(s: Seq<u8>)
    requires
        s.len() == 8,
    ensures
        be_value(s) == 0x100_0000_0000_0000 * s[0] + 0x1_0000_0000_0000 * s[1] + 0x100_0000_0000
            * s[2] + 0x1_0000_0000 * s[3] + 0x100_0000 * s[4] + 0x1_0000 * s[5] + 0x100 * s[6]
            + s[7],
        le_value(s) == s[0] + 0x100 * s[1] + 0x1_0000 * s[2] + 0x100_0000 * s[3] + 0x1_0000_0000
            * s[4] + 0x100_0000_0000 * s[5] + 0x1_0000_0000_0000 * s[6] + 0x100_0000_0000_0000
            * s[7],
{
    let front = s.take(4);
    let back = s.skip(4);
    lemma_limits();
    lemma_unfold_4(front);
    lemma_unfold_4(back);
    lemma_value_of_concat(front, back);
    assert(front + back =~= s);
    assert(be_value(s) == limit(back.len()) * be_value(front) + be_value(back));
    assert(le_value(s) == le_value(front) + limit(front.len()) * le_value(back));
}

/// Reads two bytes as an unsigned 16-bit number in the given byte order.
pub fn u16_from_bytes(bytes: [u8; 2], endian: Endian) -> (value: u16)
    ensures
        value as nat == value_of(bytes@, endian),
{
    let (b1, b0): (u8, u8) = match endian {
        Endian::BigEndian => (bytes[0], bytes[1]),
        Endian::LittleEndian => (bytes[1], bytes[0]),
    };
    proof {
        lemma_unfold_2(bytes@);
        assert(((b1 as u16) << 8 | (b0 as u16)) == 0x100 * (b1 as u16) + (b0 as u16))
            by (bit_vector);
    }
    (b1 as u16) << 8 | (b0 as u16)
}

/// Reads four bytes as an unsigned 32-bit number in the given byte order.
pub fn u32_from_bytes(bytes: [u8; 4], endian: Endian) -> (value: u32)
    ensures
        value as nat == value_of(bytes@, endian),
{
    let (b3, b2, b1, b0): (u8, u8, u8, u8) = match endian {
        Endian::BigEndian => (bytes[0], bytes[1], bytes[2], bytes[3]),
        Endian::LittleEndian => (bytes[3], bytes[2], bytes[1], bytes[0]),
    };
    proof {
        lemma_unfold_4(bytes@);
        assert(((b3 as u32) << 24 | (b2 as u32) << 16 | (b1 as u32) << 8 | (b0 as u32))
            == 0x100_0000 * (b3 as u32) + 0x1_0000 * (b2 as u32) + 0x100 * (b1 as u32) + (
        b0 as u32)) by (bit_vector);
    }
    (b3 as u32) << 24 | (b2 as u32) << 16 | (b1 as u32) << 8 | (b0 as u32)
}

/// Reads eight bytes as a 64-bit pattern in the given byte order.
pub fn f64_bits_from_bytes(bytes: [u8; 8], endian: Endian) -> (bits: u64)
    ensures
        bits as nat == value_of(bytes@, endian),
{
    let (b7, b6, b5, b4, b3, b2, b1, b0): (u8, u8, u8, u8, u8, u8, u8, u8) = match endian {
        Endian::BigEndian => (
            bytes[0],
            bytes[1],
            bytes[2],
            bytes[3],
            bytes[4],
            bytes[5],
            bytes[6],
            bytes[7],
        ),
        Endian::LittleEndian => (
            bytes[7],
            bytes[6],
            bytes[5],
            bytes[4],
            bytes[3],
            bytes[2],
            bytes[1],
            bytes[0],
        ),
    };
    proof {
        lemma_unfold_8(bytes@);
        assert(((b7 as u64) << 56 | (b6 as u64) << 48 | (b5 as u64) << 40 | (b4 as u64) << 32 | (
        b3 as u64) << 24 | (b2 as u64) << 16 | (b1 as u64) << 8 | (b0 as u64))
            == 0x100_0000_0000_0000 * (b7 as u64) + 0x1_0000_0000_0000 * (b6 as u64)
            + 0x100_0000_0000 * (b5 as u64) + 0x1_0000_0000 * (b4 as u64) + 0x100_0000 * (
        b3 as u64) + 0x1_0000 * (b2 as u64) + 0x100 * (b1 as u64) + (b0 as u64)) by (bit_vector);
    }
    (b7 as u64) << 56 | (b6 as u64) << 48 | (b5 as u64) << 40 | (b4 as u64) << 32 | (b3 as u64)
        << 24 | (b2 as u64) << 16 | (b1 as u64) << 8 | (b0 as u64)
}

/// Reads one byte as a signed 8-bit number.
pub fn i8_from_byte(byte: u8) -> (value: i8)
    ensures
        value as int == signed_of(byte as nat, 1),
{
    proof {
        lemma_limits();
        assert(byte < 0x80 ==> (byte as i8) == byte) by (bit_vector);
        assert(byte >= 0x80 ==> (byte as i8) == byte - 0x100) by (bit_vector);
    }
    byte as i8
}

/// Reads two bytes as a signed 16-bit number in the given byte order.
pub fn i16_from_bytes(bytes: [u8; 2], endian: Endian) -> (value: i16)
    ensures
        value as int == signed_of(value_of(bytes@, endian), 2),
{
    let pattern: u16 = u16_from_bytes(bytes, endian);
    proof {
        lemma_limits();
        assert(pattern < 0x8000 ==> (pattern as i16) == pattern) by (bit_vector);
        assert(pattern >= 0x8000 ==> (pattern as i16) == pattern - 0x1_0000) by (bit_vector);
    }
    pattern as i16
}

/// Reads four bytes as a signed 32-bit number in the given byte order.
pub fn i32_from_bytes(bytes: [u8; 4], endian: Endian) -> (value: i32)
    ensures
        value as int == signed_of(value_of(bytes@, endian), 4),
{
    let pattern: u32 = u32_from_bytes(bytes, endian);
    proof {
        lemma_limits();
        assert(pattern < 0x8000_0000 ==> (pattern as i32) == pattern) by (bit_vector);
        assert(pattern >= 0x8000_0000 ==> (pattern as i32) == pattern - 0x1_0000_0000)
            by (bit_vector);
    }
    pattern as i32
}

/// Lays an unsigned 16-bit number out as two bytes in the given byte order.
/// Read in that order, the bytes stand for the number again.
pub fn u16_to_bytes(value: u16, endian: Endian) -> (bytes: [u8; 2])
    ensures
        bytes@ == bytes_of(value as nat, 2, endian),
        value_of(bytes@, endian) == value as nat,
{
    let b1: u8 = (value >> 8) as u8;
    let b0: u8 = (value & 0xff) as u8;
    let bytes: [u8; 2] = match endian {
        Endian::BigEndian => [b1, b0],
        Endian::LittleEndian => [b0, b1],
    };
    proof {
        assert(0x100 * ((value >> 8) as u8) + ((value & 0xff) as u8) == value) by (bit_vector);
        lemma_unfold_2(bytes@);
        lemma_bytes_round_trip(bytes@, endian);
    }
    bytes
}

/// Lays an unsigned 32-bit number out as four bytes in the given byte order.
/// Read in that order, the bytes stand for the number again.
pub fn u32_to_bytes(value: u32, endian: Endian) -> (bytes: [u8; 4])
    ensures
        bytes@ == bytes_of(value as nat, 4, endian),
        value_of(bytes@, endian) == value as nat,
{
    let b3: u8 = (value >> 24) as u8;
    let b2: u8 = ((value >> 16) & 0xff) as u8;
    let b1: u8 = ((value >> 8) & 0xff) as u8;
    let b0: u8 = (value & 0xff) as u8;
    let bytes: [u8; 4] = match endian {
        Endian::BigEndian => [b3, b2, b1, b0],
        Endian::LittleEndian => [b0, b1, b2, b3],
    };
    proof {
        assert(0x100_0000 * ((value >> 24) as u8) + 0x1_0000 * (((value >> 16) & 0xff) as u8)
            + 0x100 * (((value >> 8) & 0xff) as u8) + ((value & 0xff) as u8) == value)
            by (bit_vector);
        lemma_unfold_4(bytes@);
        lemma_bytes_round_trip(bytes@, endian);
    }
    bytes
}

/// Lays a 64-bit pattern out as eight bytes in the given byte order. Read in
/// that order, the bytes stand for the pattern again.
pub fn f64_bits_to_bytes(bits: u64, endian: Endian) -> (bytes: [u8; 8])
    ensures
        bytes@ == bytes_of(bits as nat, 8, endian),
        value_of(bytes@, endian) == bits as nat,
{
    let b7: u8 = (bits >> 56) as u8;
    let b6: u8 = ((bits >> 48) & 0xff) as u8;
    let b5: u8 = ((bits >> 40) & 0xff) as u8;
    let b4: u8 = ((bits >> 32) & 0xff) as u8;
    let b3: u8 = ((bits >> 24) & 0xff) as u8;
    let b2: u8 = ((bits >> 16) & 0xff) as u8;
    let b1: u8 = ((bits >> 8) & 0xff) as u8;
    let b0: u8 = (bits & 0xff) as u8;
    let bytes: [u8; 8] = match endian {
        Endian::BigEndian => [b7, b6, b5, b4, b3, b2, b1, b0],
        Endian::LittleEndian => [b0, b1, b2, b3, b4, b5, b6, b7],
    };
    proof {
        assert(0x100_0000_0000_0000 * ((bits >> 56) as u8) + 0x1_0000_0000_0000 * (((bits >> 48)
            & 0xff) as u8) + 0x100_0000_0000 * (((bits >> 40) & 0xff) as u8) + 0x1_0000_0000 * (((
        bits >> 32) & 0xff) as u8) + 0x100_0000 * (((bits >> 24) & 0xff) as u8) + 0x1_0000 * (((
        bits >> 16) & 0xff) as u8) + 0x100 * (((bits >> 8) & 0xff) as u8) + ((bits & 0xff) as u8)
            == bits) by (bit_vector);
        lemma_unfold_8(bytes@);
        lemma_bytes_round_trip(bytes@, endian);
    }
    bytes
}

/// Lays a signed 8-bit number out as one byte. Read as a signed number, the
/// byte stands for the number again.
pub fn i8_to_byte(value: i8) -> (byte: u8)
    ensures
        byte as nat == pattern_of(value as int, 1),
        signed_of(byte as nat, 1) == value as int,
{
    proof {
        lemma_limits();
        assert(value >= 0 ==> (value as u8) == value) by (bit_vector);
        assert(value < 0 ==> (value as u8) == value + 0x100) by (bit_vector);
    }
    value as u8
}

/// Lays a signed 16-bit number out as two bytes in the given byte order.
/// Read in that order, the bytes stand for the number again.
pub fn i16_to_bytes(value: i16, endian: Endian) -> (bytes: [u8; 2])
    ensures
        bytes@ == bytes_of(pattern_of(value as int, 2), 2, endian),
        signed_of(value_of(bytes@, endian), 2) == value as int,
{
    proof {
        lemma_limits();
        assert(value >= 0 ==> (value as u16) == value) by (bit_vector);
        assert(value < 0 ==> (value as u16) == value + 0x1_0000) by (bit_vector);
    }
    u16_to_bytes(value as u16, endian)
}

/// Lays a signed 32-bit number out as four bytes in the given byte order.
/// Read in that order, the bytes stand for the number again.
pub fn i32_to_bytes(value: i32, endian: Endian) -> (bytes: [u8; 4])
    ensures
        bytes@ == bytes_of(pattern_of(value as int, 4), 4, endian),
        signed_of(value_of(bytes@, endian), 4) == value as int,
{
    proof {
        lemma_limits();
        assert(value >= 0 ==> (value as u32) == value) by (bit_vector);
        assert(value < 0 ==> (value as u32) == value + 0x1_0000_0000) by (bit_vector);
    }
    u32_to_bytes(value as u32, endian)
}

/// Round trip of unsigned 8-bit numbers: a byte at the head of a run of bytes
/// is the number that was written as that byte.
pub proof fn lemma_u8_round_trip(value: u8, rest: Seq<u8>)
    ensures
        (seq![value] + rest)[0] == value,
{
}

/// Round trip of unsigned 16-bit numbers: the bytes that a number is laid out
/// as stand, read in the same byte order, for that number.
pub proof fn lemma_u16_round_trip(value: u16, endian: Endian)
    ensures
        value_of(bytes_of(value as nat, 2, endian), endian) == value as nat,
{
    lemma_limits();
    lemma_value_round_trip(value as nat, 2, endian);
}

/// Round trip of unsigned 32-bit numbers, and of the bit patterns of
/// single-precision floats: the bytes that a number is laid out as stand,
/// read in the same byte order, for that number.
pub proof fn lemma_u32_round_trip(value: u32, endian: Endian)
    ensures
        value_of(bytes_of(value as nat, 4, endian), endian) == value as nat,
{
    lemma_limits();
    lemma_value_round_trip(value as nat, 4, endian);
}

/// Round trip of the bit patterns of double-precision floats: the bytes that
/// a pattern is laid out as stand, read in the same byte order, for that
/// pattern.
pub proof fn lemma_f64_bits_round_trip(bits: u64, endian: Endian)
    ensures
        value_of(bytes_of(bits as nat, 8, endian), endian) == bits as nat,
{
    lemma_limits();
    lemma_value_round_trip(bits as nat, 8, endian);
}

/// Round trip of signed 8-bit numbers: the byte that a number is laid out as
/// stands for that number.
pub proof fn lemma_i8_round_trip(value: i8)
    ensures
        pattern_of(value as int, 1) < 0x100,
        signed_of(pattern_of(value as int, 1) as u8 as nat, 1) == value as int,
{
    lemma_limits();
}

/// Round trip of signed 16-bit numbers: the bytes that a number is laid out
/// as stand, read in the same byte order, for that number.
pub proof fn lemma_i16_round_trip(value: i16, endian: Endian)
    ensures
        signed_of(value_of(bytes_of(pattern_of(value as int, 2), 2, endian), endian), 2)
            == value as int,
{
    lemma_limits();
    lemma_value_round_trip(pattern_of(value as int, 2), 2, endian);
}

/// Round trip of signed 32-bit numbers: the bytes that a number is laid out
/// as stand, read in the same byte order, for that number.
pub proof fn lemma_i32_round_trip(value: i32, endian: Endian)
    ensures
        signed_of(value_of(bytes_of(pattern_of(value as int, 4), 4, endian), endian), 4)
            == value as int,
{
    lemma_limits();
    lemma_value_round_trip(pattern_of(value as int, 4), 4, endian);
}

} // verus!
