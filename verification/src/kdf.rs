//! Key derivation: passphrase and salt to wrapping key.

use vstd::prelude::*;

use crate::KEY_SIZE;

verus! {

/// The 16-byte wrapping key that PBKDF2 with an HMAC-SHA-256 core derives
/// from the passphrase and the salt at the given iteration count.
pub uninterp spec fn kdf_of(passphrase: Seq<u8>, salt: Seq<u8>, iterations: u32) -> Seq<u8>;

/// Relies on crypto::pbkdf2::pbkdf2 keyed with crypto::hmac::Hmac over
/// crypto::sha2::Sha256: it fills the output buffer with a key that is a
/// deterministic function of the passphrase, the salt and the iteration
/// count alone.  The iteration count must be positive: pbkdf2 asserts it.
#[verifier::external_body]
fn pbkdf2_sha256(passphrase: &[u8], salt: &[u8], iterations: u32) -> (r: Vec<u8>)
    requires
        iterations >= 1,
    ensures
        r@ == kdf_of(passphrase@, salt@, iterations),
        r@.len() == KEY_SIZE,
{
    let mut mac = crypto::hmac::Hmac::new(crypto::sha2::Sha256::new(), passphrase);
    let mut key = vec![0u8; KEY_SIZE];
    crypto::pbkdf2::pbkdf2(&mut mac, salt, iterations, &mut key);
    key
}

/// Derive the wrapping key for this store.  Deterministic and
/// side-effect-free: reopening a store re-derives exactly the key that
/// wrapped its store key, provided the same passphrase, salt and iteration
/// count.  Any passphrase length is accepted here; the key store rejects
/// empty passphrases before calling this.
pub fn derive_wrapping_key(passphrase: &[u8], salt: &[u8], iterations: u32) -> (r: Vec<u8>)
    requires
        iterations >= 1,
    ensures
        r@ == kdf_of(passphrase@, salt@, iterations),
        r@.len() == KEY_SIZE,
{
    pbkdf2_sha256(passphrase, salt, iterations)
}

/// Two independent derivations given identical passphrase, salt and
/// iteration count produce identical wrapping-key bytes.
pub proof fn lemma_derivation_deterministic(
    k1: Seq<u8>,
    k2: Seq<u8>,
    passphrase: Seq<u8>,
    salt: Seq<u8>,
    iterations: u32,
)
    requires
        k1 == kdf_of(passphrase, salt, iterations),
        k2 == kdf_of(passphrase, salt, iterations),
    ensures
        k1 == k2,
{
}

} // verus!
