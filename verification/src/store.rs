//! The key store: creating a new store's key file and loading, then
//! authenticating, an existing one.

use vstd::prelude::*;

use crate::auth::{hmac_sha256, mac_of};
use crate::bytes::{copy_range, ct_eq};
use crate::cipher::{cbc_enc_of, padded_dec_of, unwrap_key, wrap_key};
use crate::kdf::{derive_wrapping_key, kdf_of};
use crate::keyfile::{lemma_parse_inverts_bytes, parse_spec, KeyFile, KeyFileAbs};
use crate::rng::random_bytes;
use crate::{KEY_SIZE, SALT_SIZE, VERSION};
use crate::StoreError;

verus! {

/// The key file a store writes for the given passphrase, fresh salt, IV
/// and store key: the store key wrapped under the derived key, the tag
/// over the wrapped bytes keyed by the raw passphrase.
pub open spec fn key_file_of(
    passphrase: Seq<u8>,
    salt: Seq<u8>,
    iv: Seq<u8>,
    store_key: Seq<u8>,
    iterations: u32,
) -> KeyFileAbs {
    KeyFileAbs {
        version: VERSION,
        iv: iv,
        salt: salt,
        mac: mac_of(passphrase, cbc_enc_of(kdf_of(passphrase, salt, iterations), iv, store_key)),
        wrapped_key: cbc_enc_of(kdf_of(passphrase, salt, iterations), iv, store_key),
    }
}

/// What loading a serialized key file with a passphrase yields, checked in
/// this order: the fields must parse, the version must be the supported
/// one, the tag recomputed from the raw passphrase must equal the stored
/// tag, and only then is the wrapped key decrypted, which must give back
/// exactly one store key's worth of bytes.
pub open spec fn load_spec(bytes: Seq<u8>, passphrase: Seq<u8>, iterations: u32) -> Result<
    Seq<u8>,
    StoreError,
> {
    match parse_spec(bytes) {
        None => Err(StoreError::Truncated),
        Some(kf) => {
            if kf.version != VERSION {
                Err(StoreError::UnsupportedVersion)
            } else if mac_of(passphrase, kf.wrapped_key) != kf.mac {
                Err(StoreError::MacMismatch)
            } else {
                match padded_dec_of(
                    kdf_of(passphrase, kf.salt, iterations),
                    kf.iv,
                    kf.wrapped_key,
                ) {
                    Some(k) => if k.len() == KEY_SIZE {
                        Ok(k)
                    } else {
                        Err(StoreError::DecryptFailed)
                    },
                    None => Err(StoreError::DecryptFailed),
                }
            }
        },
    }
}

/// Build the key file for a new store from the passphrase and fresh random
/// material.  Rejects an empty passphrase and touches nothing else in that
/// case.  On success the record is exactly `key_file_of(..)`, and loading
/// its serialization with the same passphrase gives back the store key:
/// creation then reopening succeeds and yields the same key.
pub fn build_key_file(
    passphrase: &[u8],
    salt: &[u8],
    iv: &[u8],
    store_key: &[u8],
    iterations: u32,
) -> (r: Result<KeyFile, StoreError>)
    requires
        salt@.len() == SALT_SIZE,
        iv@.len() == KEY_SIZE,
        store_key@.len() == KEY_SIZE,
        iterations >= 1,
    ensures
        match r {
            Ok(kf) => {
                &&& passphrase@.len() > 0
                &&& kf@ == key_file_of(passphrase@, salt@, iv@, store_key@, iterations)
                &&& load_spec(kf@.bytes(), passphrase@, iterations) == Ok::<Seq<u8>, StoreError>(
                    store_key@,
                )
            },
            Err(e) => e == StoreError::EmptyPassphrase && passphrase@.len() == 0,
        },
{
    if passphrase.len() == 0 {
        return Err(StoreError::EmptyPassphrase);
    }
    let wrapping_key = derive_wrapping_key(passphrase, salt, iterations);
    let wrapped_key = wrap_key(store_key, &wrapping_key, iv);
    let mac = hmac_sha256(passphrase, wrapped_key.as_slice());
    let iv_copy = copy_range(iv, 0, iv.len());
    let salt_copy = copy_range(salt, 0, salt.len());
    let kf = KeyFile { version: VERSION, iv: iv_copy, salt: salt_copy, mac, wrapped_key };
    proof {
        assert(iv_copy@ =~= iv@);
        assert(salt_copy@ =~= salt@);
        assert(kf@ == key_file_of(passphrase@, salt@, iv@, store_key@, iterations));
        lemma_parse_inverts_bytes(kf@);
    }
    Ok(kf)
}

/// Load and authenticate an existing key file, returning the store key.
/// The outcome is exactly `load_spec` of the bytes and the passphrase: the
/// tag is verified, in constant time, before any decryption is attempted,
/// so no attacker-controlled ciphertext ever reaches the padding check.
pub fn load_store_key(bytes: &[u8], passphrase: &[u8], iterations: u32) -> (r: Result<
    Vec<u8>,
    StoreError,
>)
    requires
        iterations >= 1,
    ensures
        match r {
            Ok(k) => load_spec(bytes@, passphrase@, iterations) == Ok::<Seq<u8>, StoreError>(k@)
                && k@.len() == KEY_SIZE,
            Err(e) => load_spec(bytes@, passphrase@, iterations) == Err::<Seq<u8>, StoreError>(e),
        },
{
    let kf = match KeyFile::parse(bytes) {
        Ok(kf) => kf,
        Err(e) => { return Err(e); },
    };
    if kf.version != VERSION {
        return Err(StoreError::UnsupportedVersion);
    }
    let expected_mac = hmac_sha256(passphrase, kf.wrapped_key.as_slice());
    if !ct_eq(expected_mac.as_slice(), kf.mac.as_slice()) {
        return Err(StoreError::MacMismatch);
    }
    let wrapping_key = derive_wrapping_key(passphrase, kf.salt.as_slice(), iterations);
    let store_key = match unwrap_key(kf.wrapped_key.as_slice(), &wrapping_key, kf.iv.as_slice()) {
        Ok(k) => k,
        Err(e) => { return Err(e); },
    };
    if store_key.len() != KEY_SIZE {
        return Err(StoreError::DecryptFailed);
    }
    Ok(store_key)
}

/// A load whose recomputed tag differs from the stored tag — which is what
/// a wrong passphrase or a tampered key file produces — fails with the
/// authentication error, never succeeds.  Wrong passphrase and tampering
/// are indistinguishable to the caller by design.
pub proof fn lemma_bad_tag_fails(bytes: Seq<u8>, passphrase: Seq<u8>, iterations: u32)
    requires
        parse_spec(bytes) is Some,
        parse_spec(bytes).unwrap().version == VERSION,
        mac_of(passphrase, parse_spec(bytes).unwrap().wrapped_key) != parse_spec(
            bytes,
        ).unwrap().mac,
    ensures
        load_spec(bytes, passphrase, iterations) == Err::<Seq<u8>, StoreError>(
            StoreError::MacMismatch,
        ),
{
}

/// Any change to the stored tag of a key file that loads successfully —
/// a flipped bit among its tag bytes — makes the load fail with the
/// authentication error: the tag recomputed over the unchanged wrapped key
/// still equals the old tag, so it cannot equal the changed one.
pub proof fn lemma_tampered_tag_fails(
    bytes: Seq<u8>,
    tampered: Seq<u8>,
    passphrase: Seq<u8>,
    iterations: u32,
)
    requires
        load_spec(bytes, passphrase, iterations) is Ok,
        parse_spec(tampered) is Some,
        parse_spec(tampered).unwrap().version == parse_spec(bytes).unwrap().version,
        parse_spec(tampered).unwrap().wrapped_key == parse_spec(bytes).unwrap().wrapped_key,
        parse_spec(tampered).unwrap().mac != parse_spec(bytes).unwrap().mac,
    ensures
        load_spec(tampered, passphrase, iterations) == Err::<Seq<u8>, StoreError>(
            StoreError::MacMismatch,
        ),
{
}

/// What a newly created store hands back: the store key to hold in memory
/// and the serialized key file to persist.
#[derive(Debug)]
pub struct NewStore {
    pub store_key: Vec<u8>,
    pub key_file_bytes: Vec<u8>,
}

/// Create a new store: reject an empty passphrase before anything else,
/// then generate salt, IV and store key from the secure random source,
/// wrap and authenticate the store key, and serialize the key file.
/// Loading the returned bytes with the same passphrase yields the same
/// store key.
pub fn create_new_store(passphrase: &[u8], iterations: u32) -> (r: Result<NewStore, StoreError>)
    requires
        iterations >= 1,
    ensures
        match r {
            Ok(ns) => {
                &&& passphrase@.len() > 0
                &&& ns.store_key@.len() == KEY_SIZE
                &&& load_spec(ns.key_file_bytes@, passphrase@, iterations) == Ok::<
                    Seq<u8>,
                    StoreError,
                >(ns.store_key@)
            },
            Err(e) => {
                &&& passphrase@.len() == 0 <==> e == StoreError::EmptyPassphrase
                &&& passphrase@.len() > 0 ==> e == StoreError::RandomFailure
            },
        },
{
    if passphrase.len() == 0 {
        return Err(StoreError::EmptyPassphrase);
    }
    let salt = match random_bytes(SALT_SIZE) {
        Ok(v) => v,
        Err(e) => { return Err(e); },
    };
    let iv = match random_bytes(KEY_SIZE) {
        Ok(v) => v,
        Err(e) => { return Err(e); },
    };
    let store_key = match random_bytes(KEY_SIZE) {
        Ok(v) => v,
        Err(e) => { return Err(e); },
    };
    let kf = match build_key_file(
        passphrase,
        salt.as_slice(),
        iv.as_slice(),
        store_key.as_slice(),
        iterations,
    ) {
        Ok(kf) => kf,
        Err(e) => { return Err(e); },
    };
    let key_file_bytes = kf.serialize();
    Ok(NewStore { store_key, key_file_bytes })
}

/// What opening a store hands back: the store key, and, when the store was
/// newly created, the serialized key file still to be persisted.
#[derive(Debug)]
pub struct OpenOutcome {
    pub store_key: Vec<u8>,
    pub key_file_bytes: Option<Vec<u8>>,
}

/// Open a store from the passphrase and the key file found on disk, if
/// any: an empty passphrase is rejected first; with an existing key file
/// the store key is loaded and authenticated; without one a new store is
/// created, and its key file is handed back for the caller to persist.
pub fn open_store(passphrase: &[u8], existing: Option<&Vec<u8>>, iterations: u32) -> (r: Result<
    OpenOutcome,
    StoreError,
>)
    requires
        iterations >= 1,
    ensures
        match r {
            Ok(o) => {
                &&& passphrase@.len() > 0
                &&& o.store_key@.len() == KEY_SIZE
                &&& match existing {
                    Some(b) => o.key_file_bytes is None && load_spec(
                        b@,
                        passphrase@,
                        iterations,
                    ) == Ok::<Seq<u8>, StoreError>(o.store_key@),
                    None => o.key_file_bytes is Some && load_spec(
                        o.key_file_bytes.unwrap()@,
                        passphrase@,
                        iterations,
                    ) == Ok::<Seq<u8>, StoreError>(o.store_key@),
                }
            },
            Err(e) => {
                &&& passphrase@.len() == 0 <==> e == StoreError::EmptyPassphrase
                &&& passphrase@.len() > 0 ==> match existing {
                    Some(b) => load_spec(b@, passphrase@, iterations) == Err::<Seq<u8>, StoreError>(
                        e,
                    ),
                    None => e == StoreError::RandomFailure,
                }
            },
        },
{
    if passphrase.len() == 0 {
        return Err(StoreError::EmptyPassphrase);
    }
    match existing {
        Some(bytes) => {
            let store_key = match load_store_key(bytes.as_slice(), passphrase, iterations) {
                Ok(k) => k,
                Err(e) => { return Err(e); },
            };
            Ok(OpenOutcome { store_key, key_file_bytes: None })
        },
        None => {
            let ns = match create_new_store(passphrase, iterations) {
                Ok(ns) => ns,
                Err(e) => { return Err(e); },
            };
            Ok(OpenOutcome { store_key: ns.store_key, key_file_bytes: Some(ns.key_file_bytes) })
        },
    }
}

} // verus!
