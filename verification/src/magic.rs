//! The magic-number check: does a byte source begin with the expected bytes?

use crate::error::{MagicNumberCheckError, WrongMagicNumber};
use crate::stream::ByteSource;
use vstd::prelude::*;
use vstd::slice::slice_to_vec;

verus! {

/// Tells whether two runs of bytes are the same, byte for byte.
pub fn same_bytes(left: &[u8], right: &[u8]) -> (same: bool)
    ensures
        same <==> left@ == right@,
{
    if left.len() != right.len() {
        return false;
    }
    let mut i: usize = 0;
    while i < left.len()
        invariant
            i <= left@.len(),
            left@.len() == right@.len(),
            forall|k: int| 0 <= k < i ==> left@[k] == right@[k],
        decreases left@.len() - i,
    {
        if left[i] != right[i] {
            return false;
        }
        i += 1;
    }
    assert(left@ =~= right@);
    true
}

/// Whether the pending bytes of a source begin with the expected bytes.
pub open spec fn begins_with(pending: Seq<u8>, expected: Seq<u8>) -> bool {
    expected.len() <= pending.len() && pending.take(expected.len() as int) == expected
}

/// Holds the bytes that were read against the magic number.
///
/// Succeeds exactly when the two are the same. Otherwise the error carries
/// both, as they are.
pub fn compare_magic_number(read: Vec<u8>, magic_number: &[u8]) -> (r: Result<
    (),
    WrongMagicNumber,
>)
    ensures
        r is Ok <==> read@ == magic_number@,
        r matches Err(e) ==> e.expected@ == magic_number@ && e.read@ == read@,
{
    if same_bytes(read.as_slice(), magic_number) {
        Ok(())
    } else {
        Err(WrongMagicNumber { expected: slice_to_vec(magic_number), read })
    }
}

/// The magic-number check, for every byte source.
pub trait MagicNumberCheck: ByteSource {
    /// Reads as many bytes as `magic_number` has and holds them against it.
    ///
    /// With that many bytes pending the source gives up exactly those,
    /// whether they match or not; the check succeeds when they are the bytes
    /// of `magic_number`, and fails with both byte sequences otherwise. With
    /// fewer bytes pending the check fails with the failure of the source.
    fn check_magic_number(&mut self, magic_number: &[u8]) -> (r: Result<
        (),
        MagicNumberCheckError,
    >)
        ensures
            begins_with(old(self)@, magic_number@) ==> {
                &&& r is Ok
                &&& final(self)@ == old(self)@.skip(magic_number@.len() as int)
            },
            magic_number@.len() <= old(self)@.len() && !begins_with(old(self)@, magic_number@)
                ==> {
                &&& r matches Err(MagicNumberCheckError::MagicNumber(e)) && e.expected@
                    == magic_number@ && e.read@ == old(self)@.take(magic_number@.len() as int)
                &&& final(self)@ == old(self)@.skip(magic_number@.len() as int)
            },
            magic_number@.len() > old(self)@.len() ==> {
                &&& r matches Err(MagicNumberCheckError::IoError(_))
                &&& final(self)@ == Seq::<u8>::empty()
            },
    {
        let mut read: Vec<u8> = vec![0u8; magic_number.len()];
        match self.read_exact(read.as_mut_slice()) {
            Ok(()) => match compare_magic_number(read, magic_number) {
                Ok(()) => Ok(()),
                Err(e) => Err(MagicNumberCheckError::MagicNumber(e)),
            },
            Err(e) => Err(MagicNumberCheckError::IoError(e)),
        }
    }
}

impl<R: ByteSource> MagicNumberCheck for R {}

} // verus!
