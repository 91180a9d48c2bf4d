//! The error taxonomy of the pipeline.

use vstd::prelude::*;

verus! {

/// Errors surfaced by the encryption pipeline.
#[derive(Clone, Copy, Debug, PartialEq, Eq, Structural)]
pub enum CryptoError {
    /// The nonce source holds fewer bytes than a nonce requires.
    NonceTooShort,
    /// The ciphertext is not a well-formed hex string.
    InvalidHex,
    /// The authentication tag does not match the ciphertext.
    AuthenticationFailed,
}

} // verus!
