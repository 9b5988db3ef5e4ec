//! Binary encoding at the command boundary: file contents crossing it are
//! text-encoded with standard base64 in both directions.

use vstd::prelude::*;
use crate::errors::OpsError;

verus! {

/// What base64's standard engine encodes bytes to: a function of the bytes
/// alone.
pub uninterp spec fn b64_of(data: Seq<u8>) -> Seq<char>;

/// Relies on the `base64` crate's `STANDARD` engine `encode`: standard
/// padded base64 of the bytes, a function of the bytes alone; empty input
/// encodes to the empty string.
#[verifier::external_body]
fn b64_encode(data: &[u8]) -> (r: String)
    ensures
        r@ == b64_of(data@),
        data@.len() == 0 ==> r@.len() == 0,
{
    base64::Engine::encode(&base64::engine::general_purpose::STANDARD, data)
}

/// What base64's standard engine decodes a string to: the bytes when the
/// string is valid standard base64, nothing otherwise; a function of the
/// characters alone.
pub uninterp spec fn b64_decode_of(text: Seq<char>) -> Option<Seq<u8>>;

/// Relies on the `base64` crate's `STANDARD` engine `decode`: succeeds with
/// the decoded bytes exactly on valid standard base64, a function of the
/// characters alone. The error branch hands back the crate's own error
/// text.
#[verifier::external_body]
pub(crate) fn b64_decode(text: &str) -> (r: Result<Vec<u8>, String>)
    ensures
        match r {
            Ok(v) => b64_decode_of(text@) == Some(v@),
            Err(_) => b64_decode_of(text@) is None,
        },
{
    match base64::Engine::decode(&base64::engine::general_purpose::STANDARD, text) {
        Ok(v) => Ok(v),
        Err(e) => Err(format!("{}", e)),
    }
}

/// Encode file contents for transport across the command boundary.
pub fn encode_transport(data: &Vec<u8>) -> (r: String)
    ensures
        r@ == b64_of(data@),
{
    b64_encode(data.as_slice())
}

/// Decode text-encoded file contents arriving across the command boundary.
/// Succeeds with the bytes exactly when the text is valid standard base64,
/// and rejects anything else as invalid input.
pub fn decode_transport(text: &str) -> (r: Result<Vec<u8>, OpsError>)
    ensures
        match r {
            Ok(v) => b64_decode_of(text@) == Some(v@),
            Err(e) => b64_decode_of(text@) is None && e is InvalidInput,
        },
{
    match b64_decode(text) {
        Ok(v) => Ok(v),
        Err(m) => Err(OpsError::InvalidInput(m)),
    }
}

} // verus!
