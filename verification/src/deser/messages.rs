//! Human-readable descriptions of deserialization errors.

use vstd::prelude::*;
use vstd::string::*;
use crate::VERSION;
use crate::bytes::{usize_bytes, usize_size, lemma_usize_bits};
use crate::deser::Error;
use crate::text::{io_error_text, push_dec, push_hex_padded, spec_dec, spec_hex_padded};

verus! {

/// The description of a deserialization error (for [`Error::FileOpenError`], the part
/// before the description of the I/O error).
pub open spec fn spec_error_message(e: Error) -> Seq<char> {
    match e {
        Error::ReadError => "Read error during ε-serde deserialization"@,
        Error::FileOpenError(_) => "Error opening file during ε-serde deserialization: "@,
        Error::EndiannessError => "The current arch is little-endian but the data is big-endian."@,
        Error::MagicCookieError(magic) => "Wrong magic cookie 0x"@ + spec_hex_padded(magic as nat, 16)
            + ". The byte stream does not come from ε-serde."@,
        Error::MajorVersionMismatch(found) => "Major version mismatch. Expected "@ + spec_dec(VERSION.0 as nat)
            + " but got "@ + spec_dec(found as nat) + "."@,
        Error::MinorVersionMismatch(found) => "Minor version mismatch. Expected "@ + spec_dec(VERSION.1 as nat)
            + " but got "@ + spec_dec(found as nat) + "."@,
        Error::UsizeSizeMismatch(size) => "The file was serialized on an architecture where a usize has size "@
            + spec_dec(size as nat) + ", but on the current architecture it has size "@ + spec_dec(usize_bytes())
            + "."@,
        Error::AlignmentError =>
            "Alignment error. Most likely you are deserializing from a memory region with insufficient alignment."@,
        Error::InvalidTag(tag) => "Invalid tag: 0x"@ + spec_hex_padded(tag as nat, 2),
        Error::WrongTypeHash { got_type_name, expected_type_name, expected, got } => "Wrong type hash. Expected: 0x"@
            + spec_hex_padded(expected as nat, 16) + " Actual: 0x"@ + spec_hex_padded(got as nat, 16)
            + ".\nYou are trying to deserialize a file with the wrong type.\nThe serialized type is '"@
            + expected_type_name@ + "' and the deserialized type is '"@ + got_type_name@ + "'."@,
        Error::WrongTypeReprHash { got_type_name, expected_type_name, expected, got } =>
            "Wrong type repr hash. Expected: 0x"@ + spec_hex_padded(expected as nat, 16) + " Actual: 0x"@
            + spec_hex_padded(got as nat, 16)
            + ".\nYou might be trying to deserialize a file that was serialized on an architecture with different alignment requirements, or some of the fields of the type have changed their copy type (zero or deep).\nThe serialized type is '"@
            + expected_type_name@ + "' and the deserialized type is '"@ + got_type_name@ + "'."@,
    }
}

/// Append the closing part of a hash error: the two hexadecimal hashes around `middle`,
/// the explanation and the two type names.
fn push_hash_error(
    out: &mut String,
    expected: u64,
    got: u64,
    explanation: &str,
    expected_type_name: &String,
    got_type_name: &String,
)
    ensures
        final(out)@ == old(out)@ + spec_hex_padded(expected as nat, 16) + " Actual: 0x"@ + spec_hex_padded(
            got as nat,
            16,
        ) + explanation@ + expected_type_name@ + "' and the deserialized type is '"@ + got_type_name@ + "'."@,
{
    push_hex_padded(out, expected, 16);
    out.append(" Actual: 0x");
    push_hex_padded(out, got, 16);
    out.append(explanation);
    out.append(expected_type_name.as_str());
    out.append("' and the deserialized type is '");
    out.append(got_type_name.as_str());
    out.append("'.");
    assert(out@ =~= old(out)@ + spec_hex_padded(expected as nat, 16) + " Actual: 0x"@ + spec_hex_padded(
        got as nat,
        16,
    ) + explanation@ + expected_type_name@ + "' and the deserialized type is '"@ + got_type_name@ + "'."@);
}

impl Error {
    /// A description of the error, as it is displayed.
    pub fn to_string(&self) -> (r: String)
        ensures
            !(self is FileOpenError) ==> r@ == spec_error_message(*self),
            self is FileOpenError ==> spec_error_message(*self).is_prefix_of(r@),
    {
        proof { lemma_usize_bits(); }
        match self {
            Error::ReadError => String::from_str("Read error during ε-serde deserialization"),
            Error::FileOpenError(error) => {
                let mut r = String::from_str("Error opening file during ε-serde deserialization: ");
                let ghost prefix = r@;
                r.append(io_error_text(error).as_str());
                assert(r@.take(prefix.len() as int) =~= prefix);
                r
            },
            Error::EndiannessError => String::from_str("The current arch is little-endian but the data is big-endian."),
            Error::MagicCookieError(magic) => {
                let mut r = String::from_str("Wrong magic cookie 0x");
                push_hex_padded(&mut r, *magic, 16);
                r.append(". The byte stream does not come from ε-serde.");
                r
            },
            Error::MajorVersionMismatch(found) => {
                let mut r = String::from_str("Major version mismatch. Expected ");
                push_dec(&mut r, VERSION.0 as usize);
                r.append(" but got ");
                push_dec(&mut r, *found as usize);
                r.append(".");
                r
            },
            Error::MinorVersionMismatch(found) => {
                let mut r = String::from_str("Minor version mismatch. Expected ");
                push_dec(&mut r, VERSION.1 as usize);
                r.append(" but got ");
                push_dec(&mut r, *found as usize);
                r.append(".");
                r
            },
            Error::UsizeSizeMismatch(size) => {
                let mut r = String::from_str("The file was serialized on an architecture where a usize has size ");
                push_dec(&mut r, *size);
                r.append(", but on the current architecture it has size ");
                push_dec(&mut r, usize_size());
                r.append(".");
                r
            },
            Error::AlignmentError => String::from_str(
                "Alignment error. Most likely you are deserializing from a memory region with insufficient alignment.",
            ),
            Error::InvalidTag(tag) => {
                let mut r = String::from_str("Invalid tag: 0x");
                push_hex_padded(&mut r, *tag as u64, 2);
                r
            },
            Error::WrongTypeHash { got_type_name, expected_type_name, expected, got } => {
                let mut r = String::from_str("Wrong type hash. Expected: 0x");
                push_hash_error(&mut r, *expected, *got,
                    ".\nYou are trying to deserialize a file with the wrong type.\nThe serialized type is '",
                    expected_type_name, got_type_name);
                r
            },
            Error::WrongTypeReprHash { got_type_name, expected_type_name, expected, got } => {
                let mut r = String::from_str("Wrong type repr hash. Expected: 0x");
                push_hash_error(&mut r, *expected, *got,
                    ".\nYou might be trying to deserialize a file that was serialized on an architecture with different alignment requirements, or some of the fields of the type have changed their copy type (zero or deep).\nThe serialized type is '",
                    expected_type_name, got_type_name);
                r
            },
        }
    }
}

} // verus!
