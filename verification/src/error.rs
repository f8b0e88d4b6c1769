//! The errors of this library, and the text that describes them.

use vstd::prelude::*;
use vstd::std_specs::convert::FromSpecImpl;
use vstd::string::StringExecFns;
use vstd::utf8::{decode_utf8, encode_utf8, encode_utf8_decode_utf8, valid_utf8};

verus! {

/// The transport failure of the standard library, carried through as it is.
#[verifier::external_type_specification]
#[verifier::external_body]
pub struct ExIoError(std::io::Error);

/// The failure that the standard library reports for bytes that are not
/// UTF-8, carried through as it is.
#[verifier::external_type_specification]
#[verifier::external_body]
pub struct ExFromUtf8Error(std::string::FromUtf8Error);

/// A magic number that did not match: the bytes that were expected, and the
/// bytes that were read in their place.
#[derive(Debug)]
pub struct WrongMagicNumber {
    pub expected: Vec<u8>,
    pub read: Vec<u8>,
}

/// Why a magic-number check failed.
#[derive(Debug)]
pub enum MagicNumberCheckError {
    /// The source could not supply the bytes.
    IoError(std::io::Error),
    /// The source supplied other bytes than the expected ones.
    MagicNumber(WrongMagicNumber),
}

/// Why reading a text field failed.
#[derive(Debug)]
pub enum FixedStringError {
    /// The source could not supply the bytes.
    IoError(std::io::Error),
    /// The bytes that the source supplied are not UTF-8.
    Encoding(std::string::FromUtf8Error),
}

/// The text that the standard library's `format!` gives for a vector of bytes
/// under `{:X?}`, its debug format with upper-case hexadecimal numbers.
pub uninterp spec fn hex_debug_text(bytes: Seq<u8>) -> Seq<char>;

/// How a byte sequence is shown in a message: as the text that it encodes
/// where it is UTF-8, in hexadecimal otherwise.
pub open spec fn shown(bytes: Seq<u8>) -> Seq<char> {
    if valid_utf8(bytes) {
        decode_utf8(bytes)
    } else {
        hex_debug_text(bytes)
    }
}

/// The message for a magic number that did not match, given how the expected
/// and the read bytes are shown.
pub open spec fn mismatch_text(expected: Seq<char>, read: Seq<char>) -> Seq<char> {
    "Incorrect Magic Number: Expected '"@ + expected + "', Read '"@ + read + "'"@
}

/// The short description of a magic number that did not match.
pub open spec fn mismatch_description() -> Seq<char> {
    "A Magic Number check Failed"@
}

/// Calls `String::from_utf8`. The contract claims what its documentation
/// says: the call succeeds exactly on valid UTF-8, and the string it gives
/// then consists of the very bytes it was given.
#[verifier::external_body]
fn string_from_utf8(bytes: Vec<u8>) -> (r: Result<String, std::string::FromUtf8Error>)
    ensures
        r is Ok <==> valid_utf8(bytes@),
        r matches Ok(text) ==> encode_utf8(text@) == bytes@,
{
    String::from_utf8(bytes)
}

/// Formats bytes with the standard library's `{:X?}`. The contract gives the
/// resulting text a name and claims no more of it than that it depends on the
/// bytes alone.
#[verifier::external_body]
fn hex_debug(bytes: &Vec<u8>) -> (text: String)
    ensures
        text@ == hex_debug_text(bytes@),
{
    format!("{:X?}", bytes)
}

/// Formats a `std::io::Error` with its `Display`. Nothing is claimed of the
/// text.
#[verifier::external_body]
fn io_error_text(error: &std::io::Error) -> String {
    format!("{}", error)
}

/// Calls `std::error::Error::description` on a `std::io::Error`. Nothing is
/// claimed of the text.
#[verifier::external_body]
#[allow(deprecated)]
fn io_error_description(error: &std::io::Error) -> &str {
    std::error::Error::description(error)
}

/// Decodes bytes as UTF-8 text.
///
/// Succeeds exactly on valid UTF-8, with the text that the bytes encode.
pub fn text_from_utf8(bytes: Vec<u8>) -> (r: Result<String, FixedStringError>)
    ensures
        match r {
            Ok(text) => valid_utf8(bytes@) && text@ == decode_utf8(bytes@),
            Err(e) => !valid_utf8(bytes@) && e is Encoding,
        },
{
    match string_from_utf8(bytes) {
        Ok(text) => {
            proof {
                encode_utf8_decode_utf8(text@);
            }
            Ok(text)
        },
        Err(e) => Err(FixedStringError::Encoding(e)),
    }
}

/// Shows bytes for a message: as text where they are UTF-8, in hexadecimal
/// otherwise.
pub fn show_bytes(bytes: &Vec<u8>) -> (text: String)
    ensures
        text@ == shown(bytes@),
{
    match string_from_utf8(bytes.clone()) {
        Ok(text) => {
            proof {
                encode_utf8_decode_utf8(text@);
            }
            text
        },
        Err(_) => hex_debug(bytes),
    }
}

/// Puts the message for a magic number that did not match together from the
/// two byte sequences as they are shown.
pub fn mismatch_message(expected: &str, read: &str) -> (text: String)
    ensures
        text@ == mismatch_text(expected@, read@),
{
    let mut text = String::from_str("Incorrect Magic Number: Expected '");
    text.append(expected);
    text.append("', Read '");
    text.append(read);
    text.append("'");
    text
}

impl WrongMagicNumber {
    /// A short description of the failure.
    pub fn description(&self) -> (text: &'static str)
        ensures
            text@ == mismatch_description(),
    {
        "A Magic Number check Failed"
    }

    /// The message for the failure: it names the expected and the read bytes,
    /// each as text where it is UTF-8 and in hexadecimal otherwise.
    pub fn to_string(&self) -> (text: String)
        ensures
            text@ == mismatch_text(shown(self.expected@), shown(self.read@)),
    {
        let expected = show_bytes(&self.expected);
        let read = show_bytes(&self.read);
        mismatch_message(expected.as_str(), read.as_str())
    }
}

impl MagicNumberCheckError {
    /// A short description of the failure. For a transport failure it is the
    /// description that the failure itself gives.
    pub fn description(&self) -> (text: &str)
        ensures
            self is MagicNumber ==> text@ == mismatch_description(),
    {
        match self {
            MagicNumberCheckError::IoError(e) => io_error_description(e),
            MagicNumberCheckError::MagicNumber(e) => e.description(),
        }
    }

    /// The message for the failure. For a transport failure it is the message
    /// that the failure itself gives.
    pub fn to_string(&self) -> (text: String)
        ensures
            self matches MagicNumberCheckError::MagicNumber(e) ==> text@ == mismatch_text(
                shown(e.expected@),
                shown(e.read@),
            ),
    {
        match self {
            MagicNumberCheckError::IoError(e) => io_error_text(e),
            MagicNumberCheckError::MagicNumber(e) => e.to_string(),
        }
    }
}

impl From<std::io::Error> for MagicNumberCheckError {
    fn from(e: std::io::Error) -> (r: MagicNumberCheckError) {
        MagicNumberCheckError::IoError(e)
    }
}

impl FromSpecImpl<std::io::Error> for MagicNumberCheckError {
    open spec fn obeys_from_spec() -> bool {
        true
    }

    open spec fn from_spec(e: std::io::Error) -> MagicNumberCheckError {
        MagicNumberCheckError::IoError(e)
    }
}

impl From<WrongMagicNumber> for MagicNumberCheckError {
    fn from(e: WrongMagicNumber) -> (r: MagicNumberCheckError) {
        MagicNumberCheckError::MagicNumber(e)
    }
}

impl FromSpecImpl<WrongMagicNumber> for MagicNumberCheckError {
    open spec fn obeys_from_spec() -> bool {
        true
    }

    open spec fn from_spec(e: WrongMagicNumber) -> MagicNumberCheckError {
        MagicNumberCheckError::MagicNumber(e)
    }
}

impl From<std::io::Error> for FixedStringError {
    fn from(e: std::io::Error) -> (r: FixedStringError) {
        FixedStringError::IoError(e)
    }
}

impl FromSpecImpl<std::io::Error> for FixedStringError {
    open spec fn obeys_from_spec() -> bool {
        true
    }

    open spec fn from_spec(e: std::io::Error) -> FixedStringError {
        FixedStringError::IoError(e)
    }
}

} // verus!
