//! The byte-order selector.

use vstd::prelude::*;

verus! {

/// The order in which the bytes of a multi-byte value are laid out.
#[derive(Clone, Copy, Debug, PartialEq, Eq, Structural)]
pub enum Endian {
    /// The most significant byte comes first.
    BigEndian,
    /// The least significant byte comes first.
    LittleEndian,
}

impl Endian {
    /// The other byte order.
    pub open spec fn spec_swapped(self) -> Endian {
        match self {
            Endian::BigEndian => Endian::LittleEndian,
            Endian::LittleEndian => Endian::BigEndian,
        }
    }

    /// Returns the other byte order.
    #[verifier::when_used_as_spec(spec_swapped)]
    pub fn swapped(self) -> (other: Endian)
        ensures
            other == self.spec_swapped(),
    {
        match self {
            Endian::BigEndian => Endian::LittleEndian,
            Endian::LittleEndian => Endian::BigEndian,
        }
    }
}

} // verus!
