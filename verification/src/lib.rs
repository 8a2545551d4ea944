//! Passphrase-protected encryption-at-rest for a directory of stored files.
//!
//! A random 16-byte store key protects every file's contents.  The store key
//! itself is persisted only in wrapped form: encrypted under a key derived
//! from the caller's passphrase and authenticated by an HMAC tag keyed by the
//! raw passphrase bytes.  This crate holds the key-file format, the key
//! derivation, wrapping and authentication logic, and the per-file
//! encrypt/decrypt pipeline.  Reading and writing the actual files is the
//! caller's business: every function here goes from plain values to plain
//! values.

use vstd::prelude::*;

mod auth;
mod bytes;
mod cipher;
mod content;
mod error;
mod kdf;
mod keyfile;
mod padding;
mod rng;
mod store;

pub use auth::mac_of;
pub use bytes::ct_eq;
pub use cipher::{cbc_enc_of, cbc_raw_dec_of, padded_dec_of, unwrap_key, wrap_key};
pub use content::{content_plain_of, decrypt_content, encrypt_content, lemma_content_round_trip};
pub use error::StoreError;
pub use kdf::{derive_wrapping_key, kdf_of, lemma_derivation_deterministic};
pub use keyfile::{
    lemma_bytes_invert_parse, lemma_parse_inverts_bytes, parse_spec, KeyFile, KeyFileAbs,
};
pub use padding::{lemma_strip_inverts_pad, pkcs_pad_spec, pkcs_strip_spec};
pub use store::{
    build_key_file, create_new_store, key_file_of, lemma_bad_tag_fails, lemma_tampered_tag_fails,
    load_spec, load_store_key, open_store, NewStore, OpenOutcome,
};

verus! {

/// Number of bytes in the store key, the wrapping key, and the IV.
pub const KEY_SIZE: usize = 16;

/// Number of bytes in the salt fed to key derivation.
pub const SALT_SIZE: usize = 16;

/// Number of bytes in the HMAC-SHA-256 authentication tag.
pub const MAC_SIZE: usize = 32;

/// The single supported key-file format version.
pub const VERSION: u8 = 1;

/// Number of bytes before the wrapped key in a serialized key file:
/// version, IV, salt and tag.
pub const HEADER_SIZE: usize = 1 + KEY_SIZE + SALT_SIZE + MAC_SIZE;

/// Default PBKDF2 iteration count for deriving the wrapping key.
pub const DEFAULT_KDF_ITERATIONS: u32 = 100000;

} // verus!
