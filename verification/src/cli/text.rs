//! Options of the text subcommands: sign, verify, key generation, and
//! authenticated encryption and decryption.

use crate::util::str_eq;
use vstd::prelude::*;

verus! {

/// The closed set of signing algorithm families.
#[derive(Debug, Clone, Copy, PartialEq, Eq, Structural)]
pub enum TextSignFormat {
    /// Symmetric keyed hash (MAC-style), 32-byte key, 32-byte signature.
    Blake3,
    /// Asymmetric digital signature, 32-byte keys, 64-byte signature.
    Ed25519,
}

impl TextSignFormat {
    /// The textual name of the format, as written on the command line.
    pub fn name(&self) -> (r: &'static str)
        ensures
            *self == TextSignFormat::Blake3 ==> r@ == "blake3"@,
            *self == TextSignFormat::Ed25519 ==> r@ == "ed25519"@,
    {
        match self {
            TextSignFormat::Blake3 => "blake3",
            TextSignFormat::Ed25519 => "ed25519",
        }
    }
}

/// Parses a signing format name; only `blake3` and `ed25519` are accepted.
pub fn parse_format(format: &str) -> (r: Result<TextSignFormat, &'static str>)
    ensures
        format@ == "blake3"@ ==> r == Ok::<TextSignFormat, &'static str>(TextSignFormat::Blake3),
        format@ == "ed25519"@ ==> r == Ok::<TextSignFormat, &'static str>(TextSignFormat::Ed25519),
        r matches Err(e) ==> e@ == "Invalid format"@ && format@ != "blake3"@ && format@
            != "ed25519"@,
{
    proof {
        reveal_strlit("blake3");
        reveal_strlit("ed25519");
        assert("blake3"@.len() != "ed25519"@.len());
        assert("blake3"@ != "ed25519"@);
    }
    if str_eq(format, "blake3") {
        Ok(TextSignFormat::Blake3)
    } else if str_eq(format, "ed25519") {
        Ok(TextSignFormat::Ed25519)
    } else {
        Err("Invalid format")
    }
}

/// Options for signing a message.
#[derive(Debug, Clone)]
pub struct TextSignOpts {
    pub input: String,
    pub key: String,
    pub format: TextSignFormat,
}

/// Options for verifying a message against a signature.
#[derive(Debug, Clone)]
pub struct TextVerifyOpts {
    pub input: String,
    pub key: String,
    pub sig: String,
    pub format: TextSignFormat,
}

/// Options for generating fresh key material.
#[derive(Debug, Clone)]
pub struct TextKeyGenerateOpts {
    pub format: TextSignFormat,
    pub output: String,
}

/// Options for authenticated encryption.
#[derive(Debug, Clone)]
pub struct EncryptOpts {
    pub input: String,
    pub key: String,
}

/// Options for authenticated decryption.
#[derive(Debug, Clone)]
pub struct DecryptOpts {
    pub input: String,
    pub key: String,
}

/// The text subcommands.
#[derive(Debug, Clone)]
pub enum TextSubCommand {
    Sign(TextSignOpts),
    Verify(TextVerifyOpts),
    GenerateKey(TextKeyGenerateOpts),
    Encrypt(EncryptOpts),
    Decrypt(DecryptOpts),
}

} // verus!
