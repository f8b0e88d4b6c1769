//! Typed, byte-order-explicit encoding and decoding of fixed-width numbers
//! over byte sources and byte sinks, with a magic-number prefix check.

pub mod codec;
pub mod endian;
pub mod error;
pub mod layout;
pub mod magic;
pub mod read;
pub mod stream;
pub mod write;

pub use crate::endian::Endian;
pub use crate::magic::MagicNumberCheck;
pub use crate::read::ReadE;
pub use crate::write::WriteE;
