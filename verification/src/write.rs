//! The encoder: typed writes to any byte sink.

use crate::codec::{
    f64_bits_to_bytes, i16_to_bytes, i32_to_bytes, i8_to_byte, u16_to_bytes, u32_to_bytes,
};
use crate::endian::Endian;
use crate::layout::{bytes_of, pattern_of};
use crate::stream::{put, ByteSink};
use vstd::prelude::*;

verus! {

/// Typed writes, for every byte sink.
///
/// Each write hands the sink exactly the width of the number, in one piece,
/// and succeeds exactly when the sink has room for that many bytes. When it
/// fails, the failure is that of the sink, and the sink holds what it held
/// before. A float is written as its IEEE-754 bit pattern, which is passed
/// through as it is.
pub trait WriteE: ByteSink {
    /// Writes an unsigned 8-bit number as one byte.
    fn write_to_u8(&mut self, tw: u8) -> (r: Result<(), std::io::Error>)
        ensures
            put(old(self)@, final(self)@, seq![tw], r is Ok),
            r is Ok <==> 1 <= old(self)@.room,
    {
        let temp: [u8; 1] = [tw];
        assert(temp@ =~= seq![tw]);
        self.write_all(&temp)?;
        Ok(())
    }

    /// Writes an unsigned 16-bit number as two bytes in the given byte order.
    fn write_to_u16(&mut self, tw: u16, endian: Endian) -> (r: Result<(), std::io::Error>)
        ensures
            put(old(self)@, final(self)@, bytes_of(tw as nat, 2, endian), r is Ok),
            r is Ok <==> 2 <= old(self)@.room,
    {
        match endian {
            Endian::BigEndian => self.write_be_to_u16(tw),
            Endian::LittleEndian => self.write_le_to_u16(tw),
        }
    }

    /// Writes an unsigned 16-bit number as two bytes, least significant byte
    /// first.
    fn write_le_to_u16(&mut self, tw: u16) -> (r: Result<(), std::io::Error>)
        ensures
            put(old(self)@, final(self)@, bytes_of(tw as nat, 2, Endian::LittleEndian), r is Ok),
            r is Ok <==> 2 <= old(self)@.room,
    {
        let temp = u16_to_bytes(tw, Endian::LittleEndian);
        self.write_all(&temp)?;
        Ok(())
    }

    /// Writes an unsigned 16-bit number as two bytes, most significant byte
    /// first.
    fn write_be_to_u16(&mut self, tw: u16) -> (r: Result<(), std::io::Error>)
        ensures
            put(old(self)@, final(self)@, bytes_of(tw as nat, 2, Endian::BigEndian), r is Ok),
            r is Ok <==> 2 <= old(self)@.room,
    {
        let temp = u16_to_bytes(tw, Endian::BigEndian);
        self.write_all(&temp)?;
        Ok(())
    }

    /// Writes an unsigned 32-bit number as four bytes in the given byte
    /// order.
    fn write_to_u32(&mut self, tw: u32, endian: Endian) -> (r: Result<(), std::io::Error>)
        ensures
            put(old(self)@, final(self)@, bytes_of(tw as nat, 4, endian), r is Ok),
            r is Ok <==> 4 <= old(self)@.room,
    {
        match endian {
            Endian::BigEndian => self.write_be_to_u32(tw),
            Endian::LittleEndian => self.write_le_to_u32(tw),
        }
    }

    /// Writes an unsigned 32-bit number as four bytes, least significant byte
    /// first.
    fn write_le_to_u32(&mut self, tw: u32) -> (r: Result<(), std::io::Error>)
        ensures
            put(old(self)@, final(self)@, bytes_of(tw as nat, 4, Endian::LittleEndian), r is Ok),
            r is Ok <==> 4 <= old(self)@.room,
    {
        let temp = u32_to_bytes(tw, Endian::LittleEndian);
        self.write_all(&temp)?;
        Ok(())
    }

    /// Writes an unsigned 32-bit number as four bytes, most significant byte
    /// first.
    fn write_be_to_u32(&mut self, tw: u32) -> (r: Result<(), std::io::Error>)
        ensures
            put(old(self)@, final(self)@, bytes_of(tw as nat, 4, Endian::BigEndian), r is Ok),
            r is Ok <==> 4 <= old(self)@.room,
    {
        let temp = u32_to_bytes(tw, Endian::BigEndian);
        self.write_all(&temp)?;
        Ok(())
    }

    /// Writes a signed 8-bit number as one byte.
    fn write_to_i8(&mut self, tw: i8) -> (r: Result<(), std::io::Error>)
        ensures
            put(old(self)@, final(self)@, seq![pattern_of(tw as int, 1) as u8], r is Ok),
            r is Ok <==> 1 <= old(self)@.room,
    {
        let temp: [u8; 1] = [i8_to_byte(tw)];
        assert(temp@ =~= seq![pattern_of(tw as int, 1) as u8]);
        self.write_all(&temp)?;
        Ok(())
    }

    /// Writes a signed 16-bit number as two bytes in the given byte order.
    fn write_to_i16(&mut self, tw: i16, endian: Endian) -> (r: Result<(), std::io::Error>)
        ensures
            put(
                old(self)@,
                final(self)@,
                bytes_of(pattern_of(tw as int, 2), 2, endian),
                r is Ok,
            ),
            r is Ok <==> 2 <= old(self)@.room,
    {
        match endian {
            Endian::BigEndian => self.write_be_to_i16(tw),
            Endian::LittleEndian => self.write_le_to_i16(tw),
        }
    }

    /// Writes a signed 16-bit number as two bytes, least significant byte
    /// first.
    fn write_le_to_i16(&mut self, tw: i16) -> (r: Result<(), std::io::Error>)
        ensures
            put(
                old(self)@,
                final(self)@,
                bytes_of(pattern_of(tw as int, 2), 2, Endian::LittleEndian),
                r is Ok,
            ),
            r is Ok <==> 2 <= old(self)@.room,
    {
        let temp = i16_to_bytes(tw, Endian::LittleEndian);
        self.write_all(&temp)?;
        Ok(())
    }

    /// Writes a signed 16-bit number as two bytes, most significant byte
    /// first.
    fn write_be_to_i16(&mut self, tw: i16) -> (r: Result<(), std::io::Error>)
        ensures
            put(
                old(self)@,
                final(self)@,
                bytes_of(pattern_of(tw as int, 2), 2, Endian::BigEndian),
                r is Ok,
            ),
            r is Ok <==> 2 <= old(self)@.room,
    {
        let temp = i16_to_bytes(tw, Endian::BigEndian);
        self.write_all(&temp)?;
        Ok(())
    }

    /// Writes a signed 32-bit number as four bytes in the given byte order.
    fn write_to_i32(&mut self, tw: i32, endian: Endian) -> (r: Result<(), std::io::Error>)
        ensures
            put(
                old(self)@,
                final(self)@,
                bytes_of(pattern_of(tw as int, 4), 4, endian),
                r is Ok,
            ),
            r is Ok <==> 4 <= old(self)@.room,
    {
        match endian {
            Endian::BigEndian => self.write_be_to_i32(tw),
            Endian::LittleEndian => self.write_le_to_i32(tw),
        }
    }

    /// Writes a signed 32-bit number as four bytes, least significant byte
    /// first.
    fn write_le_to_i32(&mut self, tw: i32) -> (r: Result<(), std::io::Error>)
        ensures
            put(
                old(self)@,
                final(self)@,
                bytes_of(pattern_of(tw as int, 4), 4, Endian::LittleEndian),
                r is Ok,
            ),
            r is Ok <==> 4 <= old(self)@.room,
    {
        let temp = i32_to_bytes(tw, Endian::LittleEndian);
        self.write_all(&temp)?;
        Ok(())
    }

    /// Writes a signed 32-bit number as four bytes, most significant byte
    /// first.
    fn write_be_to_i32(&mut self, tw: i32) -> (r: Result<(), std::io::Error>)
        ensures
            put(
                old(self)@,
                final(self)@,
                bytes_of(pattern_of(tw as int, 4), 4, Endian::BigEndian),
                r is Ok,
            ),
            r is Ok <==> 4 <= old(self)@.room,
    {
        let temp = i32_to_bytes(tw, Endian::BigEndian);
        self.write_all(&temp)?;
        Ok(())
    }

    /// Writes the bit pattern of a single-precision float as four bytes in
    /// the given byte order.
    fn write_to_f32_bits(&mut self, tw: u32, endian: Endian) -> (r: Result<(), std::io::Error>)
        ensures
            put(old(self)@, final(self)@, bytes_of(tw as nat, 4, endian), r is Ok),
            r is Ok <==> 4 <= old(self)@.room,
    {
        match endian {
            Endian::BigEndian => self.write_be_to_f32_bits(tw),
            Endian::LittleEndian => self.write_le_to_f32_bits(tw),
        }
    }

    /// Writes the bit pattern of a single-precision float as four bytes,
    /// least significant byte first.
    fn write_le_to_f32_bits(&mut self, tw: u32) -> (r: Result<(), std::io::Error>)
        ensures
            put(old(self)@, final(self)@, bytes_of(tw as nat, 4, Endian::LittleEndian), r is Ok),
            r is Ok <==> 4 <= old(self)@.room,
    {
        let temp = u32_to_bytes(tw, Endian::LittleEndian);
        self.write_all(&temp)?;
        Ok(())
    }

    /// Writes the bit pattern of a single-precision float as four bytes, most
    /// significant byte first.
    fn write_be_to_f32_bits(&mut self, tw: u32) -> (r: Result<(), std::io::Error>)
        ensures
            put(old(self)@, final(self)@, bytes_of(tw as nat, 4, Endian::BigEndian), r is Ok),
            r is Ok <==> 4 <= old(self)@.room,
    {
        let temp = u32_to_bytes(tw, Endian::BigEndian);
        self.write_all(&temp)?;
        Ok(())
    }

    /// Writes the bit pattern of a double-precision float as eight bytes in
    /// the given byte order.
    fn write_to_f64_bits(&mut self, tw: u64, endian: Endian) -> (r: Result<(), std::io::Error>)
        ensures
            put(old(self)@, final(self)@, bytes_of(tw as nat, 8, endian), r is Ok),
            r is Ok <==> 8 <= old(self)@.room,
    {
        match endian {
            Endian::BigEndian => self.write_be_to_f64_bits(tw),
            Endian::LittleEndian => self.write_le_to_f64_bits(tw),
        }
    }

    /// Writes the bit pattern of a double-precision float as eight bytes,
    /// least significant byte first.
    fn write_le_to_f64_bits(&mut self, tw: u64) -> (r: Result<(), std::io::Error>)
        ensures
            put(old(self)@, final(self)@, bytes_of(tw as nat, 8, Endian::LittleEndian), r is Ok),
            r is Ok <==> 8 <= old(self)@.room,
    {
        let temp = f64_bits_to_bytes(tw, Endian::LittleEndian);
        self.write_all(&temp)?;
        Ok(())
    }

    /// Writes the bit pattern of a double-precision float as eight bytes,
    /// most significant byte first.
    fn write_be_to_f64_bits(&mut self, tw: u64) -> (r: Result<(), std::io::Error>)
        ensures
            put(old(self)@, final(self)@, bytes_of(tw as nat, 8, Endian::BigEndian), r is Ok),
            r is Ok <==> 8 <= old(self)@.room,
    {
        let temp = f64_bits_to_bytes(tw, Endian::BigEndian);
        self.write_all(&temp)?;
        Ok(())
    }
}

impl<W: ByteSink> WriteE for W {}

} // verus!
