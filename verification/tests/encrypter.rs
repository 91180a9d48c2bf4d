use aead_pipeline::encrypter::{
    AesEncryptionProvide, AesEncryptionProviderTrait, Encryptable, Encrypter, EncrypterConfig,
};
use aead_pipeline::errors::CryptoError;
use aead_pipeline::hasher::{HashProvider, Hashable, Prf, KEY_BUFF_SIZE};

fn derived_key_hex() -> String {
    const PBKDF_ROUNDS: u32 = 2;
    let buf = vec![0u8; KEY_BUFF_SIZE];
    let hasher = &mut HashProvider::new(buf, Prf::Sha512);
    let pbkdf_key = hasher.pbkdf2_gen("password", "salt", &PBKDF_ROUNDS).unwrap();
    hex::encode(pbkdf_key)
}

#[test]
fn test_encrypter() {
    const PBKDF_ROUNDS: u32 = 2;
    let buf = vec![0u8; KEY_BUFF_SIZE];

    let hasher = &mut HashProvider::new(buf, Prf::Sha512);
    let pbkdf_key = hasher.pbkdf2_gen("password", "salt", &PBKDF_ROUNDS).unwrap();
    let pbkdf_key_hex = hex::encode(pbkdf_key);

    let config = EncrypterConfig::new(pbkdf_key_hex).unwrap();

    // Create Encrypter
    let mut provider = AesEncryptionProvide::new();
    let mut enc = Encrypter::<AesEncryptionProvide>::new(config);
    let r = enc.encrypt("secret nuke codes", &mut provider);

    assert_ne!(r, "")
}

#[test]
fn create_aes_config() {
    const PBKDF_ROUNDS: u32 = 2;
    let buf = vec![0u8; KEY_BUFF_SIZE];

    let hasher = &mut HashProvider::new(buf, Prf::Sha512);
    let pbkdf_key = hasher.pbkdf2_gen("password", "salt", &PBKDF_ROUNDS).unwrap();
    let pbkdf_key_hex = hex::encode(pbkdf_key);

    let _config = EncrypterConfig::new(pbkdf_key_hex).unwrap();
}

#[test]
fn golden_derivation_and_encrypt_length() {
    let key_hex = derived_key_hex();
    assert_eq!(key_hex, "e1d9c16aa681708a45f5c7c4e215ceb66e011a2e");

    let config = EncrypterConfig::new(key_hex).unwrap();
    let mut provider = AesEncryptionProvide::new();
    let mut enc = Encrypter::<AesEncryptionProvide>::new(config);
    let plaintext = "secret nuke codes";
    let r = enc.encrypt(plaintext, &mut provider);

    assert!(!r.is_empty());
    assert_eq!(r.len(), 2 * (plaintext.len() + 16));
    assert!(r.bytes().all(|b| b.is_ascii_hexdigit()));
}

#[test]
fn ciphertext_length_law() {
    let config = EncrypterConfig::new(derived_key_hex()).unwrap();
    for plaintext in ["", "a", "hello", "a somewhat longer plaintext message"] {
        let mut provider = AesEncryptionProvide::new();
        let r = provider.perform_encryption(plaintext, &config.cipher);
        assert_eq!(r.len(), 2 * (plaintext.len() + 16));
    }
}

#[test]
fn empty_plaintext_gives_tag_only_hex() {
    let config = EncrypterConfig::new(derived_key_hex()).unwrap();
    let mut provider = AesEncryptionProvide::new();
    let r = provider.perform_encryption("", &config.cipher);
    assert_eq!(r.len(), 32);
}

#[test]
fn nonce_is_first_twelve_bytes() {
    let key_hex = derived_key_hex();
    let config = EncrypterConfig::new(key_hex.clone()).unwrap();
    assert_eq!(config.cipher.nonce, key_hex.as_bytes()[..12].to_vec());
    assert_eq!(config.cipher.key.len(), 32);
}

#[test]
fn short_nonce_source_is_rejected() {
    assert_eq!(
        EncrypterConfig::new("elevenchars".to_string()).unwrap_err(),
        CryptoError::NonceTooShort
    );
    assert!(EncrypterConfig::new("twelve chars".to_string()).is_ok());
    assert!(EncrypterConfig::new(String::new()).is_err());
}

#[test]
fn contexts_use_independent_random_keys() {
    let key_hex = derived_key_hex();
    let c1 = EncrypterConfig::new(key_hex.clone()).unwrap();
    let c2 = EncrypterConfig::new(key_hex).unwrap();
    assert_ne!(c1.cipher.key, c2.cipher.key);

    let mut p1 = AesEncryptionProvide::new();
    let mut p2 = AesEncryptionProvide::new();
    let ct1 = p1.perform_encryption("identical plaintext", &c1.cipher);
    let ct2 = p2.perform_encryption("identical plaintext", &c2.cipher);
    assert_ne!(ct1, ct2);
}

#[test]
fn encryption_is_deterministic_per_context() {
    let config =
        EncrypterConfig::with_key(vec![7u8; 32], "a nonce source string".to_string()).unwrap();
    let mut p1 = AesEncryptionProvide::new();
    let mut p2 = AesEncryptionProvide::new();
    let ct1 = p1.perform_encryption("same message", &config.cipher);
    let ct2 = p2.perform_encryption("same message", &config.cipher);
    assert_eq!(ct1, ct2);
}

#[test]
fn round_trip() {
    let config = EncrypterConfig::new(derived_key_hex()).unwrap();
    for plaintext in ["", "x", "secret nuke codes", "a longer message, with punctuation!"] {
        let mut provider = AesEncryptionProvide::new();
        let ct = provider.perform_encryption(plaintext, &config.cipher);
        let mut decrypter = AesEncryptionProvide::new();
        let recovered = decrypter.perform_decryption(&ct, &config.cipher).unwrap();
        assert_eq!(recovered, plaintext.as_bytes());
    }
}

#[test]
fn tampered_ciphertext_fails_authentication() {
    let config = EncrypterConfig::new(derived_key_hex()).unwrap();
    let mut provider = AesEncryptionProvide::new();
    let ct = provider.perform_encryption("secret nuke codes", &config.cipher);

    for pos in [0, ct.len() / 2, ct.len() - 1] {
        let mut tampered: Vec<u8> = ct.clone().into_bytes();
        tampered[pos] = if tampered[pos] == b'0' { b'1' } else { b'0' };
        let tampered = String::from_utf8(tampered).unwrap();
        let mut decrypter = AesEncryptionProvide::new();
        assert_eq!(
            decrypter.perform_decryption(&tampered, &config.cipher).unwrap_err(),
            CryptoError::AuthenticationFailed
        );
    }
}

#[test]
fn malformed_hex_is_rejected() {
    let config = EncrypterConfig::new(derived_key_hex()).unwrap();
    let mut decrypter = AesEncryptionProvide::new();
    assert_eq!(
        decrypter.perform_decryption("zz", &config.cipher).unwrap_err(),
        CryptoError::InvalidHex
    );
    let mut decrypter = AesEncryptionProvide::new();
    assert_eq!(
        decrypter.perform_decryption("abc", &config.cipher).unwrap_err(),
        CryptoError::InvalidHex
    );
}

#[test]
fn wrong_context_fails_authentication() {
    let key_hex = derived_key_hex();
    let c1 = EncrypterConfig::new(key_hex.clone()).unwrap();
    let c2 = EncrypterConfig::new(key_hex).unwrap();
    let mut provider = AesEncryptionProvide::new();
    let ct = provider.perform_encryption("secret nuke codes", &c1.cipher);
    let mut decrypter = AesEncryptionProvide::new();
    assert_eq!(
        decrypter.perform_decryption(&ct, &c2.cipher).unwrap_err(),
        CryptoError::AuthenticationFailed
    );
}

#[test]
fn encrypter_decrypt_is_a_stub() {
    let config = EncrypterConfig::new(derived_key_hex()).unwrap();
    let mut enc = Encrypter::<AesEncryptionProvide>::new(config);
    assert_eq!(enc.decrypt("anything"), "");
}
