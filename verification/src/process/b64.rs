//! Base64 transport encoding: the standard alphabet with padding, and the
//! URL-safe alphabet without padding.  The URL-safe form is the transport
//! representation of signatures and encryption envelopes.

use crate::process::KeyError;
use vstd::prelude::*;

verus! {

/// The URL-safe, unpadded base64 text of a byte sequence.
pub uninterp spec fn b64url(bytes: Seq<u8>) -> Seq<char>;

/// The bytes that URL-safe, unpadded base64 text encodes, or nothing when the
/// text is not valid for that alphabet.
pub uninterp spec fn b64url_decoded(text: Seq<char>) -> Option<Seq<u8>>;

/// The standard, padded base64 text of a byte sequence.
pub uninterp spec fn b64std(bytes: Seq<u8>) -> Seq<char>;

/// The bytes that standard base64 text encodes, or nothing when the text is
/// not valid for that alphabet.
pub uninterp spec fn b64std_decoded(text: Seq<char>) -> Option<Seq<u8>>;

/// Whether a character belongs to the URL-safe base64 alphabet.
pub open spec fn is_b64url_char(c: char) -> bool {
    ||| ('A' as u32) <= (c as u32) && (c as u32) <= ('Z' as u32)
    ||| ('a' as u32) <= (c as u32) && (c as u32) <= ('z' as u32)
    ||| ('0' as u32) <= (c as u32) && (c as u32) <= ('9' as u32)
    ||| c == '-'
    ||| c == '_'
}

/// Relies on base64's URL_SAFE_NO_PAD engine, encode: unpadded single-line
/// text over the URL-safe alphabet, of the documented unpadded length, whose
/// decode under the same engine yields the input bytes again.
#[verifier::external_body]
pub(crate) fn b64url_encode(bytes: &[u8]) -> (r: String)
    ensures
        r@ == b64url(bytes@),
        b64url_decoded(r@) == Some(bytes@),
        r@.len() == (bytes@.len() * 4 + 2) / 3,
        forall|i: int| 0 <= i < r@.len() ==> is_b64url_char(#[trigger] r@[i]),
{
    base64::Engine::encode(&base64::engine::general_purpose::URL_SAFE_NO_PAD, bytes)
}

/// Relies on base64's URL_SAFE_NO_PAD engine, decode: the bytes the text
/// encodes, or failure when the text is not valid unpadded url-safe base64.
#[verifier::external_body]
pub(crate) fn b64url_decode(text: &str) -> (r: Option<Vec<u8>>)
    ensures
        r.deep_view() == b64url_decoded(text@),
{
    base64::Engine::decode(&base64::engine::general_purpose::URL_SAFE_NO_PAD, text).ok()
}

/// Relies on base64's STANDARD engine, encode: padded text over the standard
/// alphabet whose decode under the same engine yields the input bytes again.
#[verifier::external_body]
pub(crate) fn b64std_encode(bytes: &[u8]) -> (r: String)
    ensures
        r@ == b64std(bytes@),
        b64std_decoded(r@) == Some(bytes@),
{
    base64::Engine::encode(&base64::engine::general_purpose::STANDARD, bytes)
}

/// Relies on base64's STANDARD engine, decode: the bytes the text encodes, or
/// failure when the text is not valid padded standard base64.
#[verifier::external_body]
pub(crate) fn b64std_decode(text: &str) -> (r: Option<Vec<u8>>)
    ensures
        r.deep_view() == b64std_decoded(text@),
{
    base64::Engine::decode(&base64::engine::general_purpose::STANDARD, text).ok()
}

/// Encodes bytes under the chosen alphabet.
pub fn process_encode(data: &[u8], format: crate::cli::base64::Base64Format) -> (r: String)
    ensures
        format == crate::cli::base64::Base64Format::Standard ==> r@ == b64std(data@),
        format == crate::cli::base64::Base64Format::UrlSafe ==> r@ == b64url(data@),
{
    match format {
        crate::cli::base64::Base64Format::Standard => b64std_encode(data),
        crate::cli::base64::Base64Format::UrlSafe => b64url_encode(data),
    }
}

/// Decodes base64 text under the chosen alphabet; text that is not valid for
/// that alphabet is rejected with `KeyError::BadEncoding`.
pub fn process_decode(data: &str, format: crate::cli::base64::Base64Format) -> (r: Result<
    Vec<u8>,
    KeyError,
>)
    ensures
        format == crate::cli::base64::Base64Format::Standard ==> match b64std_decoded(data@) {
            Some(b) => r matches Ok(v) && v@ == b,
            None => r == Err::<Vec<u8>, KeyError>(KeyError::BadEncoding),
        },
        format == crate::cli::base64::Base64Format::UrlSafe ==> match b64url_decoded(data@) {
            Some(b) => r matches Ok(v) && v@ == b,
            None => r == Err::<Vec<u8>, KeyError>(KeyError::BadEncoding),
        },
{
    let decoded = match format {
        crate::cli::base64::Base64Format::Standard => b64std_decode(data),
        crate::cli::base64::Base64Format::UrlSafe => b64url_decode(data),
    };
    match decoded {
        Some(v) => Ok(v),
        None => Err(KeyError::BadEncoding),
    }
}

} // verus!
