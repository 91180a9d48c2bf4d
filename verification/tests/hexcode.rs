use aead_pipeline::buffer::AesVecBuffer;
use aead_pipeline::encrypter::AesEncryptionProvide;

#[test]
fn ciphertext_hex_is_lowercase_pairwise() {
    let mut provider = AesEncryptionProvide::new();
    assert_eq!(provider.ciphertext_hex(), "");
    provider.buffer.extend_from_slice(&[0xab, 0xcd, 0x0f]);
    assert_eq!(provider.ciphertext_hex(), "abcd0f");
    provider.buffer.extend_from_slice(&[255, 16, 1]);
    assert_eq!(provider.ciphertext_hex(), "abcd0fff1001");
}

#[test]
fn buffer_append_truncate_and_len() {
    let mut buf = AesVecBuffer::new();
    assert_eq!(buf.len(), 0);
    buf.extend_from_slice(&[1, 2, 3]);
    buf.extend_from_slice(&[4, 5]);
    assert_eq!(buf.inner(), &vec![1, 2, 3, 4, 5]);
    assert_eq!(buf.len(), 5);
    buf.truncate(2);
    assert_eq!(buf.inner(), &vec![1, 2]);
    buf.truncate(10);
    assert_eq!(buf.len(), 2);
    let out = buf.take();
    assert_eq!(out, vec![1, 2]);
    assert_eq!(buf.len(), 0);
}
