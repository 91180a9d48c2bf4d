//! Cipher contexts and authenticated encryption: a random 256-bit
//! AES-256-GCM-SIV key, a nonce read from the derived-key hex, in-place
//! encryption of the workspace, and hex-encoded output.

use vstd::prelude::*;
use vstd::string::StringSliceAdditionalSpecFns;
use vstd::utf8::encode_utf8;

use aes_gcm_siv::aead::{AeadInPlace, KeyInit, OsRng};
use aes_gcm_siv::{Aes256GcmSiv, Nonce};

use crate::buffer::AesVecBuffer;
use crate::errors::CryptoError;
use crate::hexcode::{decode_hex, encode_hex, hex_decoded, hex_of, is_hex_str};
use crate::hexcode::{lemma_hex_of_len, lemma_hex_round_trip};

verus! {

/// Size in bytes of the AEAD cipher key (a 256-bit key).
pub const KEY_SIZE: usize = 32;

/// Size in bytes of the AEAD nonce (a 96-bit nonce).
pub const NONCE_SIZE: usize = 12;

/// Size in bytes of the authentication tag.
pub const TAG_SIZE: usize = 16;

/// Largest plaintext in bytes the AEAD algorithm accepts.
pub const MAX_PLAINTEXT_LEN: u64 = 0x10_0000_0000;

/// The ciphertext-with-tag that AES-256-GCM-SIV produces for a key, a nonce
/// and a plaintext (with empty associated data).
pub uninterp spec fn aead_seal(key: Seq<u8>, nonce: Seq<u8>, plaintext: Seq<u8>) -> Seq<u8>;

/// An immutable cipher context: a 256-bit AEAD key and the 96-bit nonce used
/// with it. The AES-256-GCM-SIV cipher instance is rebuilt from the key for
/// each operation.
#[derive(Debug)]
pub struct AesCipher {
    pub key: Vec<u8>,
    pub nonce: Vec<u8>,
}

impl AesCipher {
    /// Key and nonce have the sizes the algorithm fixes.
    pub open spec fn wf(&self) -> bool {
        self.key@.len() == KEY_SIZE && self.nonce@.len() == NONCE_SIZE
    }
}

/// Relies on aes_gcm_siv::Aes256GcmSiv::generate_key over aead::OsRng: a
/// fresh 256-bit key from the operating system's secure random source.
/// Nothing is promised of its value; two calls may differ.
#[verifier::external_body]
fn generate_cipher_key() -> (r: Vec<u8>)
    ensures
        r@.len() == KEY_SIZE,
{
    let key = Aes256GcmSiv::generate_key(&mut OsRng);
    key.to_vec()
}

/// Relies on aes_gcm_siv::Aes256GcmSiv::encrypt_in_place with empty
/// associated data: deterministic in key, nonce and buffer contents, it
/// overwrites the buffer with the ciphertext and appends the 16-byte tag.
/// Within the algorithm's plaintext bound it cannot fail on a growable
/// buffer.
#[verifier::external_body]
fn aead_encrypt_in_place(key: &[u8], nonce: &[u8], buffer: &mut AesVecBuffer)
    requires
        key@.len() == KEY_SIZE,
        nonce@.len() == NONCE_SIZE,
        old(buffer)@.len() <= MAX_PLAINTEXT_LEN,
    ensures
        final(buffer)@ == aead_seal(key@, nonce@, old(buffer)@),
        final(buffer)@.len() == old(buffer)@.len() + TAG_SIZE,
{
    let cipher = Aes256GcmSiv::new_from_slice(key).expect("key is 256 bits");
    let nonce = Nonce::from_slice(nonce);
    cipher.encrypt_in_place(nonce, b"", &mut buffer.data).expect(
        "plaintext is within the AEAD bound",
    );
}

#[verifier::external_type_specification]
#[verifier::external_body]
pub struct ExAeadError(aes_gcm_siv::Error);

/// Relies on aes_gcm_siv::Aes256GcmSiv::decrypt_in_place with empty
/// associated data: it verifies the authentication tag and, on success,
/// truncates the tag off, leaving exactly the plaintext whose encryption
/// under the same key and nonce produced the buffer contents. It succeeds on
/// every buffer that encryption under this key and nonce can produce, and
/// only on those.
#[verifier::external_body]
fn aead_decrypt_in_place(key: &[u8], nonce: &[u8], buffer: &mut AesVecBuffer) -> (r: Result<
    (),
    aes_gcm_siv::Error,
>)
    requires
        key@.len() == KEY_SIZE,
        nonce@.len() == NONCE_SIZE,
    ensures
        forall|m: Seq<u8>|
            old(buffer)@ == aead_seal(key@, nonce@, m) ==> r is Ok && final(buffer)@ == m,
        r is Ok ==> old(buffer)@ == aead_seal(key@, nonce@, final(buffer)@),
{
    let cipher = Aes256GcmSiv::new_from_slice(key).expect("key is 256 bits");
    let nonce = Nonce::from_slice(nonce);
    cipher.decrypt_in_place(nonce, b"", &mut buffer.data)
}

/// Configuration of the encrypter: the derived-key hex it was built from and
/// the cipher context read off it.
///
/// The binding is asymmetric, deliberately kept: the nonce comes from the
/// derived-key hex, so contexts built from the same password-derived material
/// share it, while the cipher key is drawn at random per context and is not
/// derived from the password. Two contexts built from the same hex therefore
/// never decrypt each other's output.
#[derive(Debug)]
pub struct EncrypterConfig {
    pub hash_key: String,
    pub cipher: AesCipher,
}

impl EncrypterConfig {
    /// Builds a context from a caller-supplied 256-bit key instead of the
    /// process-wide random source, so a deterministic source can stand in.
    /// The nonce is the first twelve bytes of the byte representation of
    /// `hash_key`; construction fails when fewer are available.
    pub fn with_key(key: Vec<u8>, hash_key: String) -> (r: Result<Self, CryptoError>)
        requires
            key@.len() == KEY_SIZE,
        ensures
            r is Ok <==> encode_utf8(hash_key@).len() >= NONCE_SIZE,
            r is Ok ==> (r->Ok_0).cipher.key@ == key@,
            r is Ok ==> (r->Ok_0).cipher.nonce@ == encode_utf8(hash_key@).take(NONCE_SIZE as int),
            r is Ok ==> (r->Ok_0).cipher.wf() && (r->Ok_0).hash_key == hash_key,
            r is Err ==> r->Err_0 == CryptoError::NonceTooShort,
    {
        let bytes: &[u8] = hash_key.as_str().as_bytes();
        if bytes.len() < NONCE_SIZE {
            return Err(CryptoError::NonceTooShort);
        }
        let mut nonce: Vec<u8> = Vec::new();
        let mut i: usize = 0;
        while i < NONCE_SIZE
            invariant
                i <= NONCE_SIZE,
                NONCE_SIZE <= bytes@.len(),
                bytes@ == encode_utf8(hash_key@),
                nonce@ == bytes@.take(i as int),
            decreases NONCE_SIZE - i,
        {
            let b = bytes[i];
            nonce.push(b);
            i += 1;
            proof {
                assert(nonce@ =~= bytes@.take(i as int));
            }
        }
        Ok(EncrypterConfig { hash_key, cipher: AesCipher { key, nonce } })
    }

    /// Builds a context: a fresh random 256-bit key, and the nonce read from
    /// the first twelve bytes of the byte representation of `hash_key`.
    /// Fails exactly when fewer than twelve bytes are available.
    pub fn new(hash_key: String) -> (r: Result<Self, CryptoError>)
        ensures
            r is Ok <==> encode_utf8(hash_key@).len() >= NONCE_SIZE,
            r is Ok ==> (r->Ok_0).cipher.nonce@ == encode_utf8(hash_key@).take(NONCE_SIZE as int),
            r is Ok ==> (r->Ok_0).cipher.wf() && (r->Ok_0).hash_key == hash_key,
            r is Err ==> r->Err_0 == CryptoError::NonceTooShort,
    {
        let key = generate_cipher_key();
        Self::with_key(key, hash_key)
    }
}

/// An in-place AEAD encryption backend driving an AesVecBuffer.
pub trait AesEncryptionProviderTrait {
    /// The bytes currently held in the backend's workspace.
    spec fn contents(&self) -> Seq<u8>;

    /// Appends the plaintext's bytes to the workspace, encrypts the workspace
    /// in place under the context's key and nonce, and returns the resulting
    /// ciphertext-with-tag as lowercase hex: a string of exactly twice the
    /// workspace length plus twice the tag size in characters.
    fn perform_encryption(&mut self, plain_text: &str, cipher: &AesCipher) -> (r: String)
        requires
            cipher.wf(),
            old(self).contents().len() + plain_text.spec_bytes().len() <= MAX_PLAINTEXT_LEN,
        ensures
            final(self).contents() == aead_seal(
                cipher.key@,
                cipher.nonce@,
                old(self).contents() + plain_text.spec_bytes(),
            ),
            r@ == hex_of(final(self).contents()),
            r@.len() == 2 * (old(self).contents().len() + plain_text.spec_bytes().len()
                + TAG_SIZE),
    ;
}

/// The AES-256-GCM-SIV encryption backend.
pub struct AesEncryptionProvide {
    pub buffer: AesVecBuffer,
}

impl AesEncryptionProvide {
    /// A backend with an empty workspace.
    pub fn new() -> (r: Self)
        ensures
            r.buffer@ == Seq::<u8>::empty(),
    {
        AesEncryptionProvide { buffer: AesVecBuffer::new() }
    }

    /// Hex encoded ciphertext
    pub fn ciphertext_hex(&self) -> (r: String)
        ensures
            r@ == hex_of(self.buffer@),
    {
        encode_hex(self.buffer.inner().as_slice())
    }

    /// The inverse of encryption: hex-decodes the ciphertext, decrypts the
    /// workspace in place under the context's key and nonce, verifies the
    /// tag, and returns the plaintext bytes. Round trip: for every plaintext
    /// whose encryption under this key and nonce the input encodes, exactly
    /// that plaintext comes back. A string that is not well-formed hex is
    /// rejected; so is a ciphertext whose tag does not verify.
    pub fn perform_decryption(&mut self, ciphertext_hex: &str, cipher: &AesCipher) -> (r: Result<
        Vec<u8>,
        CryptoError,
    >)
        requires
            cipher.wf(),
        ensures
            forall|m: Seq<u8>|
                ciphertext_hex@ == hex_of(aead_seal(cipher.key@, cipher.nonce@, m)) ==> r is Ok
                    && (r->Ok_0)@ == m,
            r is Ok ==> is_hex_str(ciphertext_hex@) && aead_seal(
                cipher.key@,
                cipher.nonce@,
                (r->Ok_0)@,
            ) == hex_decoded(ciphertext_hex@),
            !is_hex_str(ciphertext_hex@) <==> r == Err::<Vec<u8>, CryptoError>(
                CryptoError::InvalidHex,
            ),
    {
        let decoded = match decode_hex(ciphertext_hex) {
            Ok(v) => v,
            Err(_) => {
                proof {
                    assert forall|m: Seq<u8>|
                        ciphertext_hex@ == hex_of(
                            aead_seal(cipher.key@, cipher.nonce@, m),
                        ) implies false by {
                        lemma_hex_round_trip(aead_seal(cipher.key@, cipher.nonce@, m));
                    }
                }
                return Err(CryptoError::InvalidHex);
            },
        };
        self.buffer = AesVecBuffer::from_vec(decoded);
        match aead_decrypt_in_place(cipher.key.as_slice(), cipher.nonce.as_slice(), &mut self.buffer) {
            Ok(_) => {
                proof {
                    assert forall|m: Seq<u8>|
                        ciphertext_hex@ == hex_of(
                            aead_seal(cipher.key@, cipher.nonce@, m),
                        ) implies self.buffer@ == m by {
                        lemma_hex_round_trip(aead_seal(cipher.key@, cipher.nonce@, m));
                    }
                }
                Ok(self.buffer.take())
            },
            Err(_) => {
                proof {
                    assert forall|m: Seq<u8>|
                        ciphertext_hex@ == hex_of(
                            aead_seal(cipher.key@, cipher.nonce@, m),
                        ) implies false by {
                        lemma_hex_round_trip(aead_seal(cipher.key@, cipher.nonce@, m));
                    }
                }
                Err(CryptoError::AuthenticationFailed)
            },
        }
    }
}

impl AesEncryptionProviderTrait for AesEncryptionProvide {
    open spec fn contents(&self) -> Seq<u8> {
        self.buffer@
    }

    fn perform_encryption(&mut self, plain_text: &str, cipher: &AesCipher) -> (r: String) {
        // Note: the buffer needs 16 bytes of headroom for the auth tag
        self.buffer.extend_from_slice(plain_text.as_bytes());
        aead_encrypt_in_place(cipher.key.as_slice(), cipher.nonce.as_slice(), &mut self.buffer);
        proof {
            lemma_hex_of_len(self.buffer@);
        }
        self.ciphertext_hex()
    }
}

/// Encrypts and decrypts strings against a fixed cipher context, through a
/// pluggable encryption backend.
pub trait Encryptable<EP: AesEncryptionProviderTrait>: Sized {
    /// The context's cipher key.
    spec fn key(&self) -> Seq<u8>;

    /// The context's nonce.
    spec fn nonce(&self) -> Seq<u8>;

    /// The context is well formed.
    spec fn wf(&self) -> bool;

    /// Appends the plaintext's bytes to the backend's workspace and returns
    /// the hex-encoded ciphertext-with-tag: for a workspace of `k` bytes and
    /// a plaintext of `n` bytes, a string of exactly `2 * (k + n + 16)`
    /// characters.
    fn encrypt(&mut self, input: &str, provider: &mut EP) -> (r: String)
        requires
            old(self).wf(),
            old(provider).contents().len() + input.spec_bytes().len() <= MAX_PLAINTEXT_LEN,
        ensures
            r@ == hex_of(
                aead_seal(
                    old(self).key(),
                    old(self).nonce(),
                    old(provider).contents() + input.spec_bytes(),
                ),
            ),
            r@.len() == 2 * (old(provider).contents().len() + input.spec_bytes().len() + TAG_SIZE),
            final(provider).contents() == aead_seal(
                old(self).key(),
                old(self).nonce(),
                old(provider).contents() + input.spec_bytes(),
            ),
            *final(self) == *old(self),
    ;

    /// Decryption through the encrypter is a stub: it returns the empty
    /// string, whatever the input. The real inverse is
    /// `AesEncryptionProvide::perform_decryption`.
    fn decrypt(&mut self, input: &str) -> (r: String)
        ensures
            r@ == Seq::<char>::empty(),
            *final(self) == *old(self),
    ;
}

/// An encrypter over a fixed configuration and a pluggable backend.
pub struct Encrypter<EncryptionProvider> {
    config: EncrypterConfig,
    _provider: core::marker::PhantomData<EncryptionProvider>,
}

impl<EP> Encrypter<EP> {
    /// The configuration the encrypter was built from.
    pub closed spec fn spec_config(&self) -> EncrypterConfig {
        self.config
    }

    /// An encrypter over the given configuration.
    pub fn new(config: EncrypterConfig) -> (r: Self)
        ensures
            r.spec_config() == config,
    {
        Encrypter { config, _provider: core::marker::PhantomData }
    }
}

impl<EP: AesEncryptionProviderTrait> Encryptable<EP> for Encrypter<EP> {
    open spec fn key(&self) -> Seq<u8> {
        self.spec_config().cipher.key@
    }

    open spec fn nonce(&self) -> Seq<u8> {
        self.spec_config().cipher.nonce@
    }

    open spec fn wf(&self) -> bool {
        self.spec_config().cipher.wf()
    }

    fn encrypt(&mut self, input: &str, provider: &mut EP) -> (r: String) {
        let config = &self.config;
        let cipher = &config.cipher;
        provider.perform_encryption(input, cipher)
    }

    fn decrypt(&mut self, input: &str) -> (r: String) {
        String::new()
    }
}

} // verus!
