//! Turning a PEM key file into the conversation that writes the key.
use vstd::prelude::*;
use vstd::string::StringExecFns;
use crate::error::{ErrorModel, TrustMLibError};
use crate::protocol::{build_write_key_script, write_key_script, DER_KEY_OFFSET, MIN_DER_LEN};
use crate::session::{fresh, Session};

verus! {

/// What `pem::parse` gives for these bytes: the binary contents of the
/// first PEM section, or the text of its error.
pub uninterp spec fn pem_parse_result(input: Seq<u8>) -> Result<Seq<u8>, Seq<char>>;

/// Calls `pem::parse` on `input`. The contract claims that the result is
/// `pem_parse_result(input)`: the contents of the parsed PEM section, or the
/// error's text as `Display` writes it.
#[verifier::external_body]
fn parse_pem(input: &[u8]) -> (res: Result<Vec<u8>, String>)
    ensures
        match res {
            Ok(contents) => pem_parse_result(input@) == Ok::<Seq<u8>, Seq<char>>(contents@),
            Err(message) => pem_parse_result(input@) == Err::<Seq<u8>, Seq<char>>(message@),
        },
{
    match pem::parse(input) {
        Ok(pem) => Ok(pem.into_contents()),
        Err(e) => Err(e.to_string()),
    }
}

/// The character of a decimal digit.
pub open spec fn digit_char(d: nat) -> char {
    (48 + d) as char
}

/// The decimal writing of `n`, without leading zeros.
pub open spec fn decimal(n: nat) -> Seq<char>
    decreases n,
{
    if n < 10 {
        seq![digit_char(n)]
    } else {
        decimal(n / 10) + seq![digit_char(n % 10)]
    }
}

/// Calls `ToString::to_string` on a `usize`, which std documents as its
/// decimal writing.
#[verifier::external_body]
fn usize_to_decimal(n: usize) -> (s: String)
    ensures
        s@ == decimal(n as nat),
{
    n.to_string()
}

/// The error returned for a PEM file that cannot be parsed.
pub open spec fn pem_error(message: Seq<char>) -> ErrorModel {
    ErrorModel::Key("failed to parse PEM: "@ + message)
}

/// The error returned for DER contents shorter than the tool accepts.
pub open spec fn short_key_error(len: nat) -> ErrorModel {
    ErrorModel::Key("key file is too short, expected at least 74 bytes, got "@ + decimal(len))
}

/// Prepares the conversation that writes into `slot` the key held in the
/// PEM file whose bytes are `pem_file`: the DER contents from byte 27 on.
/// Fails, before any contact with the chip, when the file does not parse
/// or its contents are shorter than 74 bytes.
pub fn write_key(slot: u16, pem_file: &[u8]) -> (res: Result<Session, TrustMLibError>)
    ensures
        match pem_parse_result(pem_file@) {
            Err(message) => res matches Err(e) && e@ == pem_error(message),
            Ok(contents) => if contents.len() < MIN_DER_LEN {
                res matches Err(e) && e@ == short_key_error(contents.len())
            } else {
                res matches Ok(session) && session.wf() && session@ == fresh(
                    write_key_script(
                        slot,
                        contents.subrange(DER_KEY_OFFSET as int, contents.len() as int),
                    ),
                    false,
                )
            },
        },
{
    match parse_pem(pem_file) {
        Err(message) => {
            let mut text = String::from_str("failed to parse PEM: ");
            text.append(message.as_str());
            Err(TrustMLibError::KeyError(text))
        },
        Ok(contents) => {
            if contents.len() < MIN_DER_LEN {
                let mut text = String::from_str(
                    "key file is too short, expected at least 74 bytes, got ",
                );
                let count = usize_to_decimal(contents.len());
                text.append(count.as_str());
                Err(TrustMLibError::KeyError(text))
            } else {
                let key = vstd::slice::slice_subrange(
                    contents.as_slice(),
                    DER_KEY_OFFSET,
                    contents.len(),
                );
                Ok(Session::new(build_write_key_script(slot, key), false))
            }
        },
    }
}

} // verus!
