//! The per-file content cipher and the key wrapper.

use aes_store::{
    create_new_store, ct_eq, decrypt_content, derive_wrapping_key, encrypt_content, unwrap_key,
    wrap_key, StoreError, KEY_SIZE, SALT_SIZE,
};

const ITER: u32 = 1000;

fn fixed_key() -> Vec<u8> {
    derive_wrapping_key(b"content key", &vec![3u8; SALT_SIZE], ITER)
}

#[test]
fn content_round_trip() {
    let key = fixed_key();
    let cases: Vec<Vec<u8>> = vec![
        Vec::new(),
        b"x".to_vec(),
        b"hello".to_vec(),
        vec![0u8; 16],
        vec![0xffu8; 31],
        (0u32..1000).map(|i| (i % 251) as u8).collect(),
    ];
    for data in cases {
        let blob = encrypt_content(&key, &data).unwrap();
        let back = decrypt_content(&key, &blob).unwrap();
        assert_eq!(back, data);
    }
}

#[test]
fn ciphertext_differs_from_plaintext() {
    let key = fixed_key();
    let data = b"hello".to_vec();
    let blob = encrypt_content(&key, &data).unwrap();
    assert_ne!(blob, data);
    assert_eq!(blob.len(), KEY_SIZE + 16);
}

#[test]
fn empty_content_blob_is_just_the_iv() {
    let key = fixed_key();
    let blob = encrypt_content(&key, b"").unwrap();
    assert_eq!(blob.len(), KEY_SIZE);
    assert_eq!(decrypt_content(&key, &blob).unwrap(), Vec::<u8>::new());
}

#[test]
fn scenario_wordpass_store_protects_a_document() {
    let created = create_new_store(b"wordpass", ITER).unwrap();
    assert_eq!(created.key_file_bytes[0], 1u8);

    let blob = encrypt_content(&created.store_key, b"hello").unwrap();
    assert_ne!(blob.as_slice(), b"hello".as_slice());

    let back = decrypt_content(&created.store_key, &blob).unwrap();
    assert_eq!(back.as_slice(), b"hello".as_slice());

    let wrong = aes_store::load_store_key(&created.key_file_bytes, b"password", ITER);
    assert!(wrong.is_err());
}

#[test]
fn truncated_blob_fails_to_decrypt() {
    let key = fixed_key();
    let r = decrypt_content(&key, b"tiny");
    assert_eq!(r.unwrap_err(), StoreError::DecryptFailed);
}

#[test]
fn tampered_blob_never_decrypts_to_the_plaintext() {
    let key = fixed_key();
    let data = b"a document body that spans more than one block".to_vec();
    let blob = encrypt_content(&key, &data).unwrap();
    for pos in 0..blob.len() {
        let mut tampered = blob.clone();
        tampered[pos] ^= 0x01;
        match decrypt_content(&key, &tampered) {
            Ok(plain) => assert_ne!(plain, data),
            Err(e) => assert_eq!(e, StoreError::DecryptFailed),
        }
    }
}

#[test]
fn wrap_then_unwrap_recovers_the_key() {
    let wrapping_key = fixed_key();
    let iv: Vec<u8> = (0u8..16).collect();
    let store_key = vec![0xabu8; KEY_SIZE];
    let wrapped = wrap_key(&store_key, &wrapping_key, &iv);
    assert_eq!(wrapped.len(), 32);
    assert_ne!(&wrapped[..KEY_SIZE], store_key.as_slice());
    let back = unwrap_key(&wrapped, &wrapping_key, &iv).unwrap();
    assert_eq!(back, store_key);
}

#[test]
fn unwrap_with_the_wrong_key_never_recovers_the_store_key() {
    let wrapping_key = fixed_key();
    let other_key = derive_wrapping_key(b"another passphrase", &vec![3u8; SALT_SIZE], ITER);
    let iv: Vec<u8> = (0u8..16).collect();
    let store_key = vec![0xabu8; KEY_SIZE];
    let wrapped = wrap_key(&store_key, &wrapping_key, &iv);
    match unwrap_key(&wrapped, &other_key, &iv) {
        Ok(plain) => assert_ne!(plain, store_key),
        Err(e) => assert_eq!(e, StoreError::DecryptFailed),
    }
}

#[test]
fn constant_time_compare_agrees_with_equality() {
    assert!(ct_eq(b"", b""));
    assert!(ct_eq(b"abc", b"abc"));
    assert!(!ct_eq(b"abc", b"abd"));
    assert!(!ct_eq(b"abc", b"ab"));
    assert!(!ct_eq(b"", b"x"));
}
