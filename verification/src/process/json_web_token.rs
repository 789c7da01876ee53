//! Data model of the token-signing command: the claim set that travels inside
//! a token.  Encoding and verifying tokens is serializer-bound work that
//! lives with the command layer.

use vstd::prelude::*;

verus! {

/// The claims of one token: subject, audience, and expiry as seconds since
/// the epoch.
#[derive(Debug, Clone, PartialEq, Eq)]
pub struct Claims {
    pub sub: String,
    pub aud: String,
    pub exp: usize,
}

} // verus!
