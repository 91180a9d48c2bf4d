//! A password-based authenticated-encryption pipeline: PBKDF2/HMAC key
//! derivation, a cipher context binding a random 256-bit key to a nonce read
//! from the derived key material, and in-place AES-256-GCM-SIV encryption
//! returning hex-encoded ciphertext.

pub mod buffer;
pub mod encrypter;
pub mod errors;
pub mod hasher;
pub mod hexcode;
