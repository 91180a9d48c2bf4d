use aead_pipeline::hasher::{HashProvider, Hashable, Prf, KEY_BUFF_SIZE};

#[test]
fn generate_pbkdf2_key() {
    const PBKDF_ROUNDS: u32 = 2;
    let buf = vec![0u8; KEY_BUFF_SIZE];

    let hasher = &mut HashProvider::new(buf, Prf::Sha512);
    let pbkdf_key = hasher.pbkdf2_gen("password", "salt", &PBKDF_ROUNDS).unwrap();

    assert_eq!(
        pbkdf_key,
        hex::decode("e1d9c16aa681708a45f5c7c4e215ceb66e011a2e").unwrap()
    );
}

#[test]
fn derivation_is_deterministic() {
    let mut h1 = HashProvider::new(vec![0u8; KEY_BUFF_SIZE], Prf::Sha512);
    let mut h2 = HashProvider::new(vec![0u8; KEY_BUFF_SIZE], Prf::Sha512);
    let k1 = h1.pbkdf2_gen("password", "salt", &7).unwrap();
    let k2 = h2.pbkdf2_gen("password", "salt", &7).unwrap();
    assert_eq!(k1, k2);
}

#[test]
fn derived_key_has_configured_size() {
    let mut h = HashProvider::new(vec![0u8; KEY_BUFF_SIZE], Prf::Sha512);
    assert_eq!(h.pbkdf2_gen("", "", &1).unwrap().len(), KEY_BUFF_SIZE);
    assert_eq!(h.pbkdf2_gen("pw", "s", &3).unwrap().len(), KEY_BUFF_SIZE);
    assert_eq!(
        h.pbkdf2_gen("a much longer password than usual", "a long salt value", &2)
            .unwrap()
            .len(),
        KEY_BUFF_SIZE
    );

    let mut wide = HashProvider::new(vec![0u8; 64], Prf::Sha512);
    assert_eq!(wide.pbkdf2_gen("pw", "s", &2).unwrap().len(), 64);
}

#[test]
fn derive_with_sha256_prf() {
    let mut h = HashProvider::new(vec![0u8; KEY_BUFF_SIZE], Prf::Sha256);
    let key = h.pbkdf2_gen("password", "salt", &1).unwrap();
    assert_eq!(
        key,
        hex::decode("120fb6cffcf8b32c43e7225256c4f837a86548c9").unwrap()
    );
}
