//! The decoder: typed reads from any byte source.

use crate::codec::{
    f64_bits_from_bytes, i16_from_bytes, i32_from_bytes, i8_from_byte, u16_from_bytes,
    u32_from_bytes,
};
use crate::endian::Endian;
use crate::error::{text_from_utf8, FixedStringError};
use crate::layout::{signed_of, value_of};
use crate::stream::{took, ByteSource};
use vstd::prelude::*;
use vstd::utf8::{decode_utf8, valid_utf8};

verus! {

/// Typed reads, for every byte source.
///
/// Each read of a number takes exactly the width of the number from the
/// source and succeeds exactly when the source has that many bytes pending.
/// When it fails, the failure is that of the source, and the source is
/// drained. A float is read as its IEEE-754 bit pattern, which is passed
/// through as it is.
pub trait ReadE: ByteSource {
    /// Reads one byte as an unsigned 8-bit number.
    fn read_to_u8(&mut self) -> (r: Result<u8, std::io::Error>)
        ensures
            took(old(self)@, final(self)@, 1, r is Ok),
            r matches Ok(value) ==> value == old(self)@[0],
    {
        let mut temp: [u8; 1] = [0; 1];
        self.read_exact(&mut temp)?;
        Ok(temp[0])
    }

    /// Reads two bytes as an unsigned 16-bit number in the given byte order.
    fn read_to_u16(&mut self, endian: Endian) -> (r: Result<u16, std::io::Error>)
        ensures
            took(old(self)@, final(self)@, 2, r is Ok),
            r matches Ok(value) ==> value as nat == value_of(old(self)@.take(2), endian),
    {
        match endian {
            Endian::BigEndian => self.read_be_to_u16(),
            Endian::LittleEndian => self.read_le_to_u16(),
        }
    }

    /// Reads two bytes as an unsigned 16-bit number, least significant byte
    /// first.
    fn read_le_to_u16(&mut self) -> (r: Result<u16, std::io::Error>)
        ensures
            took(old(self)@, final(self)@, 2, r is Ok),
            r matches Ok(value) ==> value as nat == value_of(
                old(self)@.take(2),
                Endian::LittleEndian,
            ),
    {
        let mut temp: [u8; 2] = [0; 2];
        self.read_exact(&mut temp)?;
        Ok(u16_from_bytes(temp, Endian::LittleEndian))
    }

    /// Reads two bytes as an unsigned 16-bit number, most significant byte
    /// first.
    fn read_be_to_u16(&mut self) -> (r: Result<u16, std::io::Error>)
        ensures
            took(old(self)@, final(self)@, 2, r is Ok),
            r matches Ok(value) ==> value as nat == value_of(
                old(self)@.take(2),
                Endian::BigEndian,
            ),
    {
        let mut temp: [u8; 2] = [0; 2];
        self.read_exact(&mut temp)?;
        Ok(u16_from_bytes(temp, Endian::BigEndian))
    }

    /// Reads four bytes as an unsigned 32-bit number in the given byte order.
    fn read_to_u32(&mut self, endian: Endian) -> (r: Result<u32, std::io::Error>)
        ensures
            took(old(self)@, final(self)@, 4, r is Ok),
            r matches Ok(value) ==> value as nat == value_of(old(self)@.take(4), endian),
    {
        match endian {
            Endian::BigEndian => self.read_be_to_u32(),
            Endian::LittleEndian => self.read_le_to_u32(),
        }
    }

    /// Reads four bytes as an unsigned 32-bit number, least significant byte
    /// first.
    fn read_le_to_u32(&mut self) -> (r: Result<u32, std::io::Error>)
        ensures
            took(old(self)@, final(self)@, 4, r is Ok),
            r matches Ok(value) ==> value as nat == value_of(
                old(self)@.take(4),
                Endian::LittleEndian,
            ),
    {
        let mut temp: [u8; 4] = [0; 4];
        self.read_exact(&mut temp)?;
        Ok(u32_from_bytes(temp, Endian::LittleEndian))
    }

    /// Reads four bytes as an unsigned 32-bit number, most significant byte
    /// first.
    fn read_be_to_u32(&mut self) -> (r: Result<u32, std::io::Error>)
        ensures
            took(old(self)@, final(self)@, 4, r is Ok),
            r matches Ok(value) ==> value as nat == value_of(
                old(self)@.take(4),
                Endian::BigEndian,
            ),
    {
        let mut temp: [u8; 4] = [0; 4];
        self.read_exact(&mut temp)?;
        Ok(u32_from_bytes(temp, Endian::BigEndian))
    }

    /// Reads one byte as a signed 8-bit number.
    fn read_to_i8(&mut self) -> (r: Result<i8, std::io::Error>)
        ensures
            took(old(self)@, final(self)@, 1, r is Ok),
            r matches Ok(value) ==> value as int == signed_of(old(self)@[0] as nat, 1),
    {
        let mut temp: [u8; 1] = [0; 1];
        self.read_exact(&mut temp)?;
        Ok(i8_from_byte(temp[0]))
    }

    /// Reads two bytes as a signed 16-bit number in the given byte order.
    fn read_to_i16(&mut self, endian: Endian) -> (r: Result<i16, std::io::Error>)
        ensures
            took(old(self)@, final(self)@, 2, r is Ok),
            r matches Ok(value) ==> value as int == signed_of(
                value_of(old(self)@.take(2), endian),
                2,
            ),
    {
        match endian {
            Endian::BigEndian => self.read_be_to_i16(),
            Endian::LittleEndian => self.read_le_to_i16(),
        }
    }

    /// Reads two bytes as a signed 16-bit number, least significant byte
    /// first.
    fn read_le_to_i16(&mut self) -> (r: Result<i16, std::io::Error>)
        ensures
            took(old(self)@, final(self)@, 2, r is Ok),
            r matches Ok(value) ==> value as int == signed_of(
                value_of(old(self)@.take(2), Endian::LittleEndian),
                2,
            ),
    {
        let mut temp: [u8; 2] = [0; 2];
        self.read_exact(&mut temp)?;
        Ok(i16_from_bytes(temp, Endian::LittleEndian))
    }

    /// Reads two bytes as a signed 16-bit number, most significant byte
    /// first.
    fn read_be_to_i16(&mut self) -> (r: Result<i16, std::io::Error>)
        ensures
            took(old(self)@, final(self)@, 2, r is Ok),
            r matches Ok(value) ==> value as int == signed_of(
                value_of(old(self)@.take(2), Endian::BigEndian),
                2,
            ),
    {
        let mut temp: [u8; 2] = [0; 2];
        self.read_exact(&mut temp)?;
        Ok(i16_from_bytes(temp, Endian::BigEndian))
    }

    /// Reads four bytes as a signed 32-bit number in the given byte order.
    fn read_to_i32(&mut self, endian: Endian) -> (r: Result<i32, std::io::Error>)
        ensures
            took(old(self)@, final(self)@, 4, r is Ok),
            r matches Ok(value) ==> value as int == signed_of(
                value_of(old(self)@.take(4), endian),
                4,
            ),
    {
        match endian {
            Endian::BigEndian => self.read_be_to_i32(),
            Endian::LittleEndian => self.read_le_to_i32(),
        }
    }

    /// Reads four bytes as a signed 32-bit number, least significant byte
    /// first.
    fn read_le_to_i32(&mut self) -> (r: Result<i32, std::io::Error>)
        ensures
            took(old(self)@, final(self)@, 4, r is Ok),
            r matches Ok(value) ==> value as int == signed_of(
                value_of(old(self)@.take(4), Endian::LittleEndian),
                4,
            ),
    {
        let mut temp: [u8; 4] = [0; 4];
        self.read_exact(&mut temp)?;
        Ok(i32_from_bytes(temp, Endian::LittleEndian))
    }

    /// Reads four bytes as a signed 32-bit number, most significant byte
    /// first.
    fn read_be_to_i32(&mut self) -> (r: Result<i32, std::io::Error>)
        ensures
            took(old(self)@, final(self)@, 4, r is Ok),
            r matches Ok(value) ==> value as int == signed_of(
                value_of(old(self)@.take(4), Endian::BigEndian),
                4,
            ),
    {
        let mut temp: [u8; 4] = [0; 4];
        self.read_exact(&mut temp)?;
        Ok(i32_from_bytes(temp, Endian::BigEndian))
    }

    /// Reads four bytes as the bit pattern of a single-precision float in the
    /// given byte order.
    fn read_to_f32_bits(&mut self, endian: Endian) -> (r: Result<u32, std::io::Error>)
        ensures
            took(old(self)@, final(self)@, 4, r is Ok),
            r matches Ok(bits) ==> bits as nat == value_of(old(self)@.take(4), endian),
    {
        match endian {
            Endian::BigEndian => self.read_be_to_f32_bits(),
            Endian::LittleEndian => self.read_le_to_f32_bits(),
        }
    }

    /// Reads four bytes as the bit pattern of a single-precision float, least
    /// significant byte first.
    fn read_le_to_f32_bits(&mut self) -> (r: Result<u32, std::io::Error>)
        ensures
            took(old(self)@, final(self)@, 4, r is Ok),
            r matches Ok(bits) ==> bits as nat == value_of(
                old(self)@.take(4),
                Endian::LittleEndian,
            ),
    {
        let mut temp: [u8; 4] = [0; 4];
        self.read_exact(&mut temp)?;
        Ok(u32_from_bytes(temp, Endian::LittleEndian))
    }

    /// Reads four bytes as the bit pattern of a single-precision float, most
    /// significant byte first.
    fn read_be_to_f32_bits(&mut self) -> (r: Result<u32, std::io::Error>)
        ensures
            took(old(self)@, final(self)@, 4, r is Ok),
            r matches Ok(bits) ==> bits as nat == value_of(old(self)@.take(4), Endian::BigEndian),
    {
        let mut temp: [u8; 4] = [0; 4];
        self.read_exact(&mut temp)?;
        Ok(u32_from_bytes(temp, Endian::BigEndian))
    }

    /// Reads eight bytes as the bit pattern of a double-precision float in
    /// the given byte order.
    fn read_to_f64_bits(&mut self, endian: Endian) -> (r: Result<u64, std::io::Error>)
        ensures
            took(old(self)@, final(self)@, 8, r is Ok),
            r matches Ok(bits) ==> bits as nat == value_of(old(self)@.take(8), endian),
    {
        match endian {
            Endian::BigEndian => self.read_be_to_f64_bits(),
            Endian::LittleEndian => self.read_le_to_f64_bits(),
        }
    }

    /// Reads eight bytes as the bit pattern of a double-precision float,
    /// least significant byte first.
    fn read_le_to_f64_bits(&mut self) -> (r: Result<u64, std::io::Error>)
        ensures
            took(old(self)@, final(self)@, 8, r is Ok),
            r matches Ok(bits) ==> bits as nat == value_of(
                old(self)@.take(8),
                Endian::LittleEndian,
            ),
    {
        let mut temp: [u8; 8] = [0; 8];
        self.read_exact(&mut temp)?;
        Ok(f64_bits_from_bytes(temp, Endian::LittleEndian))
    }

    /// Reads eight bytes as the bit pattern of a double-precision float, most
    /// significant byte first.
    fn read_be_to_f64_bits(&mut self) -> (r: Result<u64, std::io::Error>)
        ensures
            took(old(self)@, final(self)@, 8, r is Ok),
            r matches Ok(bits) ==> bits as nat == value_of(old(self)@.take(8), Endian::BigEndian),
    {
        let mut temp: [u8; 8] = [0; 8];
        self.read_exact(&mut temp)?;
        Ok(f64_bits_from_bytes(temp, Endian::BigEndian))
    }

    /// Reads `length` bytes as UTF-8 text.
    ///
    /// The bytes are taken from the source before they are looked at: with
    /// `length` bytes pending the source gives up exactly those, whether they
    /// are UTF-8 or not. With fewer pending the read fails with the failure
    /// of the source. No text in memory is longer than `isize::MAX` bytes, so
    /// `length` may not be.
    fn read_to_fixed_string(&mut self, length: usize) -> (r: Result<String, FixedStringError>)
        requires
            length <= isize::MAX,
        ensures
            length <= old(self)@.len() && valid_utf8(old(self)@.take(length as int)) ==> {
                &&& r matches Ok(text) && text@ == decode_utf8(old(self)@.take(length as int))
                &&& final(self)@ == old(self)@.skip(length as int)
            },
            length <= old(self)@.len() && !valid_utf8(old(self)@.take(length as int)) ==> {
                &&& r matches Err(FixedStringError::Encoding(_))
                &&& final(self)@ == old(self)@.skip(length as int)
            },
            length > old(self)@.len() ==> {
                &&& r matches Err(FixedStringError::IoError(_))
                &&& final(self)@ == Seq::<u8>::empty()
            },
    {
        let mut buf: Vec<u8> = vec![0u8; length];
        match self.read_exact(buf.as_mut_slice()) {
            Ok(()) => text_from_utf8(buf),
            Err(e) => Err(FixedStringError::IoError(e)),
        }
    }
}

impl<R: ByteSource> ReadE for R {}

} // verus!
