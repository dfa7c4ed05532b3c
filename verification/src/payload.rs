//! Ticket contents arrive as base64 text and leave as raw bytes.

use base64::Engine;
use vstd::prelude::*;
use vstd::string::*;

verus! {

#[verifier::external_type_specification]
#[verifier::external_body]
pub struct ExDecodeError(base64::DecodeError);

/// The bytes that `text` stands for in the standard base64 alphabet with
/// required padding, or `None` where `text` is no such encoding.
pub uninterp spec fn standard_decoding(text: Seq<char>) -> Option<Seq<u8>>;

/// Calls `decode` of `base64::engine::general_purpose::STANDARD`.
///
/// Taken on trust: success and the decoded bytes depend on the text alone,
/// which `standard_decoding` names.
#[verifier::external_body]
fn standard_decode(text: &str) -> (r: Result<Vec<u8>, base64::DecodeError>)
    ensures
        r is Ok <==> standard_decoding(text@) is Some,
        r matches Ok(bytes) ==> standard_decoding(text@) == Some(bytes@),
{
    base64::engine::general_purpose::STANDARD.decode(text)
}

/// Calls `to_string` on a `base64::DecodeError`, which renders the reason
/// the decoder gave. Nothing is claimed of the text.
#[verifier::external_body]
fn decode_error_detail(error: &base64::DecodeError) -> (detail: String) {
    error.to_string()
}

/// What every reply to an undecodable payload starts with.
pub open spec fn decode_failure_prefix() -> Seq<char> {
    "Error decodificando Base64: "@
}

/// The reply to an undecodable payload, given the decoder's reason.
pub open spec fn decode_failure_text(detail: Seq<char>) -> Seq<char> {
    decode_failure_prefix() + detail
}

/// Builds the reply to an undecodable payload from the decoder's reason.
pub fn decode_failure(detail: &str) -> (msg: String)
    ensures
        msg@ == decode_failure_text(detail@),
        decode_failure_prefix().is_prefix_of(msg@),
{
    let msg = String::from_str("Error decodificando Base64: ").concat(detail);
    assert(msg@.subrange(0, decode_failure_prefix().len() as int) =~= decode_failure_prefix());
    msg
}

/// Decodes a payload. Succeeds exactly on the texts that are standard
/// base64, with the bytes they encode; any other text yields a reply that
/// starts with `decode_failure_prefix()`.
pub fn decode_payload(text: &str) -> (r: Result<Vec<u8>, String>)
    ensures
        match standard_decoding(text@) {
            Some(bytes) => r matches Ok(decoded) && decoded@ == bytes,
            None => r matches Err(msg) && decode_failure_prefix().is_prefix_of(msg@),
        },
{
    match standard_decode(text) {
        Ok(decoded) => Ok(decoded),
        Err(error) => {
            let detail = decode_error_detail(&error);
            Err(decode_failure(detail.as_str()))
        },
    }
}

} // verus!
