//! Decoding of the base64 payload carried by an upload command.

use vstd::prelude::*;
use base64::Engine;

verus! {

/// What the standard base64 alphabet decodes a text to, or nothing when the
/// text is not valid base64. Named but not written out here: the trusted
/// wrapper below ties it to the base64 crate's computation.
pub uninterp spec fn base64_decoded(text: Seq<char>) -> Option<Seq<u8>>;

/// Relies on base64's STANDARD engine: decoding is a function of the input
/// characters alone, and invalid input is refused rather than decoded.
#[verifier::external_body]
fn base64_decode(text: &str) -> (r: Option<Vec<u8>>)
    ensures
        match r {
            Some(v) => base64_decoded(text@) == Some(v@),
            None => base64_decoded(text@) is None,
        },
{
    match base64::engine::general_purpose::STANDARD.decode(text) {
        Ok(v) => Some(v),
        Err(_) => None,
    }
}

/// The payload bytes an upload stores for a base64 text: what the text
/// decodes to, or the empty payload when the text is not valid base64.
pub open spec fn payload_of(text: Seq<char>) -> Seq<u8> {
    match base64_decoded(text) {
        Some(b) => b,
        None => Seq::empty(),
    }
}

/// Decodes an upload's payload, substituting the empty payload for a text
/// that is not valid base64.
pub fn decode_payload(text: &str) -> (r: Vec<u8>)
    ensures
        r@ == payload_of(text@),
{
    match base64_decode(text) {
        Some(v) => v,
        None => Vec::new(),
    }
}

} // verus!
