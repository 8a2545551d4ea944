//! Key-store lifecycle: creation, reopening, authentication failures, and
//! the persisted key-file format.

use aes_store::{
    create_new_store, derive_wrapping_key, load_store_key, open_store, KeyFile, StoreError,
    DEFAULT_KDF_ITERATIONS, HEADER_SIZE, KEY_SIZE, MAC_SIZE, SALT_SIZE, VERSION,
};

const ITER: u32 = 1000;

#[test]
fn create_new_store_and_reopen() {
    let created = open_store(b"wordpass", None, ITER).expect("Can't create a new store");
    let key_file = created.key_file_bytes.expect("a new store must hand back its key file");

    let reopened =
        open_store(b"wordpass", Some(&key_file), ITER).expect("Can't open the existing store");
    assert!(reopened.key_file_bytes.is_none());
    assert_eq!(reopened.store_key, created.store_key);

    let wrong = open_store(b"password", Some(&key_file), ITER);
    assert!(wrong.is_err(), "Opened an existing store with the wrong passphrase");
}

#[test]
fn create_store_with_empty_passphrase() {
    let dir = open_store(b"", None, ITER);
    assert!(dir.is_err(), "Opened an existing store with the wrong passphrase");
    assert_eq!(dir.unwrap_err(), StoreError::EmptyPassphrase);
}

#[test]
fn empty_passphrase_creates_nothing() {
    let r = create_new_store(b"", ITER);
    assert_eq!(r.unwrap_err(), StoreError::EmptyPassphrase);
}

#[test]
fn wrong_passphrase_is_an_authentication_error() {
    let ns = create_new_store(b"wordpass", ITER).unwrap();
    let r = load_store_key(&ns.key_file_bytes, b"password", ITER);
    assert_eq!(r.unwrap_err(), StoreError::MacMismatch);
}

#[test]
fn reopen_yields_the_created_store_key() {
    let ns = create_new_store(b"wordpass", ITER).unwrap();
    let k = load_store_key(&ns.key_file_bytes, b"wordpass", ITER).unwrap();
    assert_eq!(k, ns.store_key);
    assert_eq!(k.len(), KEY_SIZE);
}

#[test]
fn key_file_starts_with_the_version_byte() {
    let ns = create_new_store(b"wordpass", ITER).unwrap();
    assert_eq!(ns.key_file_bytes[0], VERSION);
    // a 16-byte store key pads to two cipher blocks behind the header
    assert_eq!(ns.key_file_bytes.len(), HEADER_SIZE + 32);
}

#[test]
fn truncated_key_file_is_rejected() {
    let ns = create_new_store(b"wordpass", ITER).unwrap();
    let short = &ns.key_file_bytes[..HEADER_SIZE - 1];
    let r = load_store_key(short, b"wordpass", ITER);
    assert_eq!(r.unwrap_err(), StoreError::Truncated);
}

#[test]
fn unsupported_version_is_rejected() {
    let ns = create_new_store(b"wordpass", ITER).unwrap();
    let mut bytes = ns.key_file_bytes.clone();
    bytes[0] = 2;
    let r = load_store_key(&bytes, b"wordpass", ITER);
    assert_eq!(r.unwrap_err(), StoreError::UnsupportedVersion);
}

#[test]
fn any_bit_flip_in_mac_or_ciphertext_fails_the_load() {
    let ns = create_new_store(b"wordpass", ITER).unwrap();
    let mac_start = 1 + KEY_SIZE + SALT_SIZE;
    for pos in mac_start..ns.key_file_bytes.len() {
        for bit in 0..8 {
            let mut bytes = ns.key_file_bytes.clone();
            bytes[pos] ^= 1u8 << bit;
            let r = load_store_key(&bytes, b"wordpass", ITER);
            assert_eq!(r.unwrap_err(), StoreError::MacMismatch);
        }
    }
}

#[test]
fn derivation_is_deterministic_and_salt_sensitive() {
    let salt_a = vec![7u8; SALT_SIZE];
    let salt_b = vec![8u8; SALT_SIZE];
    let k1 = derive_wrapping_key(b"wordpass", &salt_a, ITER);
    let k2 = derive_wrapping_key(b"wordpass", &salt_a, ITER);
    let k3 = derive_wrapping_key(b"wordpass", &salt_b, ITER);
    assert_eq!(k1, k2);
    assert_ne!(k1, k3);
    assert_eq!(k1.len(), KEY_SIZE);
    assert_ne!(&k1[..8], b"wordpass");
}

#[test]
fn two_stores_differ_in_their_random_material() {
    let a = create_new_store(b"wordpass", ITER).unwrap();
    let b = create_new_store(b"wordpass", ITER).unwrap();
    assert_ne!(a.store_key, b.store_key);
    assert_ne!(a.key_file_bytes, b.key_file_bytes);
}

#[test]
fn default_iteration_count_round_trips() {
    assert!(DEFAULT_KDF_ITERATIONS >= 1);
    let ns = create_new_store(b"wordpass", DEFAULT_KDF_ITERATIONS).unwrap();
    let k = load_store_key(&ns.key_file_bytes, b"wordpass", DEFAULT_KDF_ITERATIONS).unwrap();
    assert_eq!(k, ns.store_key);
}

#[test]
fn parse_recovers_the_serialized_fields() {
    let ns = create_new_store(b"wordpass", ITER).unwrap();
    let kf = KeyFile::parse(&ns.key_file_bytes).unwrap();
    assert_eq!(kf.version, VERSION);
    assert_eq!(kf.iv.len(), KEY_SIZE);
    assert_eq!(kf.salt.len(), SALT_SIZE);
    assert_eq!(kf.mac.len(), MAC_SIZE);
    assert_eq!(kf.serialize(), ns.key_file_bytes);
}
