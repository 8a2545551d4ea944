//! The block cipher behind key wrapping and content encryption:
//! AES-128 in CBC mode, with PKCS block padding applied on encryption and
//! stripped by this crate's own verified code after raw decryption.

use vstd::prelude::*;

use crypto::buffer::{ReadBuffer, WriteBuffer};

use crate::padding::{lemma_strip_inverts_pad, pkcs_pad_spec, pkcs_strip, pkcs_strip_spec};
use crate::KEY_SIZE;
use crate::StoreError;

verus! {

/// The AES-128-CBC ciphertext of `data` under `key` and `iv`: `data`
/// extended by PKCS padding when it is not empty, and empty when it is.
pub uninterp spec fn cbc_enc_of(key: Seq<u8>, iv: Seq<u8>, data: Seq<u8>) -> Seq<u8>;

/// What raw AES-128-CBC block decryption of `data` under `key` and `iv`
/// yields — one byte per ciphertext byte, no padding interpretation.
/// Meaningful only when the length is a multiple of the block size.
pub uninterp spec fn cbc_raw_dec_of(key: Seq<u8>, iv: Seq<u8>, data: Seq<u8>) -> Seq<u8>;

/// What the whole decryption pipeline yields for a ciphertext: an empty
/// ciphertext holds an empty plaintext; a length that is no multiple of
/// the block size is invalid; anything else is raw-decrypted and has its
/// padding stripped, which may also prove invalid.
pub open spec fn padded_dec_of(key: Seq<u8>, iv: Seq<u8>, data: Seq<u8>) -> Option<Seq<u8>> {
    if data.len() == 0 {
        Some(Seq::empty())
    } else if data.len() % 16 != 0 {
        None
    } else {
        pkcs_strip_spec(cbc_raw_dec_of(key, iv, data))
    }
}

/// Relies on crypto::aes::cbc_encryptor with PkcsPadding: the ciphertext
/// is a deterministic function of key, IV and plaintext.  A non-empty
/// plaintext is extended to the next multiple of the 16-byte block size,
/// by one to sixteen bytes each holding the count added, and raw CBC
/// decryption under the same key and IV recovers exactly that padded
/// plaintext.  An empty plaintext produces an empty ciphertext: the
/// engine returns before it ever reaches the padding step.  The key must
/// be 16 bytes: the AES key schedule panics on any other length.
#[verifier::external_body]
fn cbc_encrypt(key: &[u8], iv: &[u8], data: &[u8]) -> (r: Vec<u8>)
    requires
        key@.len() == KEY_SIZE,
        iv@.len() == KEY_SIZE,
    ensures
        r@ == cbc_enc_of(key@, iv@, data@),
        data@.len() == 0 ==> r@.len() == 0,
        data@.len() > 0 ==> r@.len() == (data@.len() / 16 + 1) * 16,
        data@.len() > 0 ==> cbc_raw_dec_of(key@, iv@, r@) == pkcs_pad_spec(data@),
{
    let mut enc = crypto::aes::cbc_encryptor(
        crypto::aes::KeySize::KeySize128,
        key,
        iv,
        crypto::blockmodes::PkcsPadding,
    );
    let mut out = vec![0u8; data.len() + 16];
    let mut read_buf = crypto::buffer::RefReadBuffer::new(data);
    let mut write_buf = crypto::buffer::RefWriteBuffer::new(&mut out);
    enc.encrypt(&mut read_buf, &mut write_buf, true).expect("output buffer holds any padded input");
    write_buf.take_read_buffer().take_remaining().to_vec()
}

/// Relies on crypto::aes::cbc_decryptor with NoPadding: raw CBC block
/// decryption, no padding interpretation at all.  The outcome is a
/// deterministic function of key, IV and ciphertext: one decrypted byte
/// per ciphertext byte when the length is a multiple of the block size,
/// and a length failure otherwise.  The key must be 16 bytes: the AES key
/// schedule panics on any other length.
#[verifier::external_body]
fn cbc_decrypt_raw(key: &[u8], iv: &[u8], data: &[u8]) -> (r: Option<Vec<u8>>)
    requires
        key@.len() == KEY_SIZE,
        iv@.len() == KEY_SIZE,
    ensures
        match r {
            Some(v) => data@.len() % 16 == 0 && v@ == cbc_raw_dec_of(key@, iv@, data@)
                && v@.len() == data@.len(),
            None => data@.len() % 16 != 0,
        },
{
    let mut dec = crypto::aes::cbc_decryptor(
        crypto::aes::KeySize::KeySize128,
        key,
        iv,
        crypto::blockmodes::NoPadding,
    );
    let mut out = vec![0u8; data.len()];
    let mut read_buf = crypto::buffer::RefReadBuffer::new(data);
    let mut write_buf = crypto::buffer::RefWriteBuffer::new(&mut out);
    match dec.decrypt(&mut read_buf, &mut write_buf, true) {
        Ok(crypto::buffer::BufferResult::BufferUnderflow) => {}
        _ => return None,
    }
    Some(write_buf.take_read_buffer().take_remaining().to_vec())
}

/// CBC-encrypt with PKCS padding, carrying the proof that the whole
/// decryption pipeline inverts it.
pub(crate) fn cbc_encrypt_checked(key: &[u8], iv: &[u8], data: &[u8]) -> (r: Vec<u8>)
    requires
        key@.len() == KEY_SIZE,
        iv@.len() == KEY_SIZE,
    ensures
        r@ == cbc_enc_of(key@, iv@, data@),
        data@.len() == 0 ==> r@.len() == 0,
        data@.len() > 0 ==> r@.len() == (data@.len() / 16 + 1) * 16,
        padded_dec_of(key@, iv@, r@) == Some(data@),
{
    let r = cbc_encrypt(key, iv, data);
    proof {
        if data@.len() == 0 {
            assert(data@ =~= Seq::<u8>::empty());
        } else {
            let len = data@.len() as int;
            assert(((len / 16 + 1) * 16) % 16 == 0 && (len / 16 + 1) * 16 >= 16)
                by (nonlinear_arith)
                requires
                    len > 0,
            ;
            lemma_strip_inverts_pad(data@);
        }
    }
    r
}

/// Encrypt a store key under a wrapping key: CBC mode with PKCS padding,
/// the store's own IV.  Never reuse one IV for two different store keys
/// under the same wrapping key; each store generates a fresh IV.
pub fn wrap_key(store_key: &[u8], wrapping_key: &[u8], iv: &[u8]) -> (r: Vec<u8>)
    requires
        wrapping_key@.len() == KEY_SIZE,
        iv@.len() == KEY_SIZE,
    ensures
        r@ == cbc_enc_of(wrapping_key@, iv@, store_key@),
        store_key@.len() == 0 ==> r@.len() == 0,
        store_key@.len() > 0 ==> r@.len() == (store_key@.len() / 16 + 1) * 16,
        padded_dec_of(wrapping_key@, iv@, r@) == Some(store_key@),
{
    cbc_encrypt_checked(wrapping_key, iv, store_key)
}

/// Run the whole decryption pipeline: raw CBC block decryption, then the
/// verified padding strip.
pub(crate) fn cbc_decrypt_checked(key: &[u8], iv: &[u8], data: &[u8]) -> (r: Option<Vec<u8>>)
    requires
        key@.len() == KEY_SIZE,
        iv@.len() == KEY_SIZE,
    ensures
        match r {
            Some(v) => padded_dec_of(key@, iv@, data@) == Some(v@),
            None => padded_dec_of(key@, iv@, data@) is None,
        },
{
    if data.len() == 0 {
        return Some(Vec::new());
    }
    let raw = match cbc_decrypt_raw(key, iv, data) {
        Some(v) => v,
        None => { return None; },
    };
    pkcs_strip(raw.as_slice())
}

/// Decrypt a wrapped store key.  Fails with `DecryptFailed` exactly when
/// the ciphertext length or its padding is invalid — which is what a key
/// derived from the wrong passphrase, or a corrupted ciphertext, produces.
pub fn unwrap_key(ciphertext: &[u8], wrapping_key: &[u8], iv: &[u8]) -> (r: Result<
    Vec<u8>,
    StoreError,
>)
    requires
        wrapping_key@.len() == KEY_SIZE,
        iv@.len() == KEY_SIZE,
    ensures
        match r {
            Ok(v) => padded_dec_of(wrapping_key@, iv@, ciphertext@) == Some(v@),
            Err(e) => e == StoreError::DecryptFailed && padded_dec_of(
                wrapping_key@,
                iv@,
                ciphertext@,
            ) is None,
        },
{
    match cbc_decrypt_checked(wrapping_key, iv, ciphertext) {
        Some(v) => Ok(v),
        None => Err(StoreError::DecryptFailed),
    }
}

} // verus!
