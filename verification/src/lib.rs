//! A pluggable message-authentication and authenticated-encryption toolkit.
//!
//! The processing layer signs and verifies byte streams under a keyed hash or
//! an asymmetric signature, generates and loads key material, and encrypts or
//! decrypts whole buffers under an authenticated symmetric cipher.  Binary
//! artifacts travel as URL-safe, unpadded base64 text.

pub mod cli;
pub mod opts;
pub mod process;
pub mod util;
