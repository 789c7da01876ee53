//! Processing layer: the capability contracts shared by all signer and
//! verifier variants, and the error taxonomy of the toolkit.

use vstd::prelude::*;

pub mod b64;
pub mod csv_convert;
pub mod gen_pass;
pub mod json_web_token;
pub mod text;

verus! {

/// Errors raised by key loading and by signature handling.
///
/// A verification mismatch is never an error: it is a normal `false` result.
/// Only malformed inputs (wrong lengths, bad text encoding) are errors.
#[derive(Debug, Clone, Copy, PartialEq, Eq, Structural)]
pub enum KeyError {
    /// Key material holds fewer than 32 bytes.
    TooShort,
    /// Signature or envelope text is not valid base64 for the expected alphabet.
    BadEncoding,
    /// An asymmetric signature holds fewer than 64 bytes.
    BadSignatureLength,
}

/// Errors raised by authenticated encryption and decryption.
#[derive(Debug, Clone, Copy, PartialEq, Eq, Structural)]
pub enum CryptoError {
    /// The cipher key material was rejected, or the envelope text was not
    /// valid base64.
    Key(KeyError),
    /// The decoded envelope is too short to hold a tag and a trailing nonce.
    MalformedEnvelope,
    /// The authentication tag did not verify: wrong key, wrong nonce, or a
    /// corrupted ciphertext.  No partial plaintext is ever returned.
    AuthenticationFailed,
}

/// Capability to sign a fully buffered message.
pub trait TextSign {
    /// Computes the algorithm-specific signature over the whole message.
    fn sign(&self, msg: &[u8]) -> (sig: Vec<u8>);
}

/// Capability to verify a signature over a fully buffered message.
pub trait TextVerify {
    /// Recomputes or checks the expected signature; a mismatch is the normal
    /// `Ok(false)` result, never an error.
    fn verify(&self, msg: &[u8], sig: &[u8]) -> (r: Result<bool, KeyError>);
}

/// A record of the roster table consumed by the format-conversion command.
#[derive(Debug, Clone, PartialEq, Eq)]
pub struct Player {
    pub name: String,
    pub position: String,
    pub dob: String,
    pub nationality: String,
    pub kit: u8,
}

} // verus!
