//! Options of the base64 subcommands.

use crate::util::str_eq;
use vstd::prelude::*;

verus! {

/// The base64 alphabets offered on the command line.
#[derive(Debug, Clone, Copy, PartialEq, Eq, Structural)]
pub enum Base64Format {
    /// The standard alphabet, with `=` padding.
    Standard,
    /// The URL-safe alphabet, without padding.
    UrlSafe,
}

impl Base64Format {
    /// The textual name of the alphabet, as written on the command line.
    pub fn name(&self) -> (r: &'static str)
        ensures
            *self == Base64Format::Standard ==> r@ == "standard"@,
            *self == Base64Format::UrlSafe ==> r@ == "urlsafe"@,
    {
        match self {
            Base64Format::Standard => "standard",
            Base64Format::UrlSafe => "urlsafe",
        }
    }
}

/// Parses a base64 alphabet name; only `standard` and `urlsafe` are accepted.
pub fn parse_base64_format(format: &str) -> (r: Result<Base64Format, &'static str>)
    ensures
        format@ == "standard"@ ==> r == Ok::<Base64Format, &'static str>(Base64Format::Standard),
        format@ == "urlsafe"@ ==> r == Ok::<Base64Format, &'static str>(Base64Format::UrlSafe),
        r matches Err(e) ==> e@ == "Invalid format"@ && format@ != "standard"@ && format@
            != "urlsafe"@,
{
    proof {
        reveal_strlit("standard");
        reveal_strlit("urlsafe");
        assert("standard"@.len() != "urlsafe"@.len());
        assert("standard"@ != "urlsafe"@);
    }
    if str_eq(format, "standard") {
        Ok(Base64Format::Standard)
    } else if str_eq(format, "urlsafe") {
        Ok(Base64Format::UrlSafe)
    } else {
        Err("Invalid format")
    }
}

/// Options for encoding an input to base64 text.
#[derive(Debug, Clone)]
pub struct Base64EncodeOpts {
    pub input: String,
    pub format: Base64Format,
}

/// Options for decoding base64 text back to bytes.
#[derive(Debug, Clone)]
pub struct Base64DecodeOpts {
    pub input: String,
    pub format: Base64Format,
}

/// The base64 subcommands.
#[derive(Debug, Clone)]
pub enum Bass64SubCommand {
    Encode(Base64EncodeOpts),
    Decode(Base64DecodeOpts),
}

} // verus!
