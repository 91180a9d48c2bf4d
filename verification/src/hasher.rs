//! Key derivation: PBKDF2 over an HMAC built from a pluggable hash family.

use vstd::prelude::*;
use vstd::string::StringSliceAdditionalSpecFns;

use crate::errors::CryptoError;

verus! {

/// Size in bytes of the derived key material.
pub const KEY_BUFF_SIZE: usize = 20;

/// The hash family the PBKDF2 HMAC is built over.
#[derive(Clone, Copy, Debug, PartialEq, Eq, Structural)]
pub enum Prf {
    Sha512,
    Sha256,
}

/// The key material PBKDF2 with HMAC-SHA-512 derives from a password, a salt
/// and a round count, filling `out_len` bytes.
pub uninterp spec fn pbkdf2_sha512(password: Seq<u8>, salt: Seq<u8>, rounds: u32, out_len: nat) -> Seq<u8>;

/// The key material PBKDF2 with HMAC-SHA-256 derives from a password, a salt
/// and a round count, filling `out_len` bytes.
pub uninterp spec fn pbkdf2_sha256(password: Seq<u8>, salt: Seq<u8>, rounds: u32, out_len: nat) -> Seq<u8>;

/// The key material derivation under the chosen hash family.
pub open spec fn derived_key(
    prf: Prf,
    password: Seq<u8>,
    salt: Seq<u8>,
    rounds: u32,
    out_len: nat,
) -> Seq<u8> {
    match prf {
        Prf::Sha512 => pbkdf2_sha512(password, salt, rounds, out_len),
        Prf::Sha256 => pbkdf2_sha256(password, salt, rounds, out_len),
    }
}

/// Relies on pbkdf2::pbkdf2 with hmac::Hmac<sha2::Sha512>: deterministic in
/// password, salt and rounds, and fills the whole output buffer. HMAC-SHA-512
/// accepts keys of any length, so initialization cannot fail.
#[verifier::external_body]
fn pbkdf2_hmac_sha512(password: &[u8], salt: &[u8], rounds: u32, out_len: usize) -> (r: Vec<u8>)
    ensures
        r@ == pbkdf2_sha512(password@, salt@, rounds, out_len as nat),
        r@.len() == out_len,
{
    let mut buf = vec![0u8; out_len];
    pbkdf2::pbkdf2::<hmac::Hmac<sha2::Sha512>>(password, salt, rounds, &mut buf)
        .expect("HMAC accepts keys of any length");
    buf
}

/// Relies on pbkdf2::pbkdf2 with hmac::Hmac<sha2::Sha256>: deterministic in
/// password, salt and rounds, and fills the whole output buffer. HMAC-SHA-256
/// accepts keys of any length, so initialization cannot fail.
#[verifier::external_body]
fn pbkdf2_hmac_sha256(password: &[u8], salt: &[u8], rounds: u32, out_len: usize) -> (r: Vec<u8>)
    ensures
        r@ == pbkdf2_sha256(password@, salt@, rounds, out_len as nat),
        r@.len() == out_len,
{
    let mut buf = vec![0u8; out_len];
    pbkdf2::pbkdf2::<hmac::Hmac<sha2::Sha256>>(password, salt, rounds, &mut buf)
        .expect("HMAC accepts keys of any length");
    buf
}

/// Key derivation: turns a password, a salt and a work factor into
/// fixed-size key material.
pub trait Hashable {
    /// The hash family this provider derives with.
    spec fn spec_prf(&self) -> Prf;

    /// The configured output size in bytes; fixed once the provider exists.
    spec fn out_len(&self) -> nat;

    /// Derives key material. Deterministic: the result is a function of the
    /// password, the salt, the round count and the provider's configuration
    /// alone, and always fills exactly the configured number of bytes.
    fn pbkdf2_gen(&mut self, password: &str, salt: &str, rounds: &u32) -> (r: Result<
        Vec<u8>,
        CryptoError,
    >)
        requires
            *rounds >= 1,
        ensures
            final(self).spec_prf() == old(self).spec_prf(),
            final(self).out_len() == old(self).out_len(),
            r is Ok,
            (r->Ok_0)@ == derived_key(
                old(self).spec_prf(),
                password.spec_bytes(),
                salt.spec_bytes(),
                *rounds,
                old(self).out_len(),
            ),
            (r->Ok_0)@.len() == old(self).out_len(),
    ;
}

/// Derives fixed-size key material from a password and a salt. The output
/// size is fixed by the buffer the caller supplies at construction.
pub struct HashProvider {
    prf: Prf,
    key: Vec<u8>,
}

impl HashProvider {
    /// The hash family this provider derives with.
    pub closed spec fn spec_prf_of(&self) -> Prf {
        self.prf
    }

    /// The configured output size in bytes.
    pub closed spec fn out_len_of(&self) -> nat {
        self.key@.len()
    }

    /// A provider whose output size is the length of the supplied buffer.
    pub fn new(buf: Vec<u8>, prf: Prf) -> (r: Self)
        ensures
            r.spec_prf_of() == prf,
            r.out_len_of() == buf@.len(),
    {
        HashProvider { prf, key: buf }
    }
}

impl Hashable for HashProvider {
    open spec fn spec_prf(&self) -> Prf {
        self.spec_prf_of()
    }

    open spec fn out_len(&self) -> nat {
        self.out_len_of()
    }

    fn pbkdf2_gen(&mut self, password: &str, salt: &str, rounds: &u32) -> (r: Result<
        Vec<u8>,
        CryptoError,
    >) {
        let out_len = self.key.len();
        let out = match self.prf {
            Prf::Sha512 => pbkdf2_hmac_sha512(
                password.as_bytes(),
                salt.as_bytes(),
                *rounds,
                out_len,
            ),
            Prf::Sha256 => pbkdf2_hmac_sha256(
                password.as_bytes(),
                salt.as_bytes(),
                *rounds,
                out_len,
            ),
        };
        Ok(out)
    }
}

/// Key derivation is deterministic: key material stated for equal password,
/// salt, work factor and hash family is byte-identical.
pub proof fn lemma_derivation_deterministic(
    prf: Prf,
    password: Seq<u8>,
    salt: Seq<u8>,
    rounds: u32,
    out_len: nat,
    k1: Seq<u8>,
    k2: Seq<u8>,
)
    requires
        k1 == derived_key(prf, password, salt, rounds, out_len),
        k2 == derived_key(prf, password, salt, rounds, out_len),
    ensures
        k1 == k2,
{
}

} // verus!
