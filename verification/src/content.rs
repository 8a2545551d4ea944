//! Per-file content encryption: every stored file's bytes are encrypted
//! under the store key before they reach the underlying directory, and
//! decrypted on the way back.
//!
//! An encrypted blob is `iv(16) ‖ ciphertext`: a fresh random IV for the
//! file, then its contents in AES-128-CBC under the store key and that IV.

use vstd::prelude::*;

use crate::bytes::{append_all, copy_range};
use crate::cipher::{cbc_decrypt_checked, cbc_encrypt_checked, padded_dec_of};
use crate::KEY_SIZE;
use crate::StoreError;

verus! {

/// What an encrypted blob decrypts to under `key`: the plaintext of its
/// ciphertext part under its leading IV — or nothing, when the blob cannot
/// even hold an IV or its ciphertext does not decrypt.
pub open spec fn content_plain_of(key: Seq<u8>, blob: Seq<u8>) -> Option<Seq<u8>> {
    if blob.len() < KEY_SIZE {
        None
    } else {
        padded_dec_of(key, blob.subrange(0, KEY_SIZE as int), blob.subrange(
            KEY_SIZE as int,
            blob.len() as int,
        ))
    }
}

/// Encrypt a file's contents under the store key, with a fresh random IV
/// written at the front of the blob.  Whatever IV was drawn, the blob
/// decrypts back to exactly the plaintext; and a non-empty plaintext grows
/// by the IV and at least one byte of padding, while an empty one yields a
/// blob of just the IV.
pub fn encrypt_content(key: &[u8], data: &[u8]) -> (r: Result<Vec<u8>, StoreError>)
    requires
        key@.len() == KEY_SIZE,
    ensures
        match r {
            Ok(blob) => {
                &&& content_plain_of(key@, blob@) == Some(data@)
                &&& data@.len() == 0 ==> blob@.len() == KEY_SIZE
                &&& data@.len() > 0 ==> blob@.len() == KEY_SIZE + (data@.len() / 16 + 1) * 16
            },
            Err(e) => e == StoreError::RandomFailure,
        },
{
    let iv = match crate::rng::random_bytes(KEY_SIZE) {
        Ok(v) => v,
        Err(e) => { return Err(e); },
    };
    let ciphertext = cbc_encrypt_checked(key, iv.as_slice(), data);
    let mut blob = iv;
    append_all(&mut blob, ciphertext.as_slice());
    proof {
        assert(blob@.subrange(0, KEY_SIZE as int) =~= iv@);
        assert(blob@.subrange(KEY_SIZE as int, blob@.len() as int) =~= ciphertext@);
    }
    Ok(blob)
}

/// Decrypt an encrypted blob under the store key.  Fails with
/// `DecryptFailed` exactly when the blob is too short for an IV or its
/// ciphertext has an invalid length or invalid padding — truncation and
/// tampering surface as read errors, never as silent data loss.
pub fn decrypt_content(key: &[u8], blob: &[u8]) -> (r: Result<Vec<u8>, StoreError>)
    requires
        key@.len() == KEY_SIZE,
    ensures
        match r {
            Ok(v) => content_plain_of(key@, blob@) == Some(v@),
            Err(e) => e == StoreError::DecryptFailed && content_plain_of(key@, blob@) is None,
        },
{
    if blob.len() < KEY_SIZE {
        return Err(StoreError::DecryptFailed);
    }
    let iv = copy_range(blob, 0, KEY_SIZE);
    let ciphertext = copy_range(blob, KEY_SIZE, blob.len());
    match cbc_decrypt_checked(key, iv.as_slice(), ciphertext.as_slice()) {
        Some(v) => Ok(v),
        None => Err(StoreError::DecryptFailed),
    }
}

/// Round trip: a blob that decrypts to `data` under `key` — as every blob
/// `encrypt_content` returns for `data` does — is decrypted by
/// `decrypt_content` to exactly `data`, never to anything else.
pub proof fn lemma_content_round_trip(key: Seq<u8>, data: Seq<u8>, blob: Seq<u8>)
    requires
        content_plain_of(key, blob) == Some(data),
    ensures
        forall|plain: Seq<u8>| content_plain_of(key, blob) == Some(plain) ==> plain == data,
{
}

} // verus!
