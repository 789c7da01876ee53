//! Options of the password-generation subcommand.

use vstd::prelude::*;

verus! {

/// Options for generating a random password: its length and the character
/// classes it may draw from.
#[derive(Debug, Clone, Copy)]
pub struct GenPassOpts {
    pub length: u8,
    pub number: bool,
    pub symbols: bool,
    pub uppercase: bool,
    pub lowercase: bool,
}

} // verus!
