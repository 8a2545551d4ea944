//! Authentication of the wrapped store key.

use vstd::prelude::*;

use crypto::mac::Mac;

use crate::MAC_SIZE;

verus! {

/// The 32-byte HMAC-SHA-256 tag over `data` keyed by `key`.
pub uninterp spec fn mac_of(key: Seq<u8>, data: Seq<u8>) -> Seq<u8>;

/// Relies on crypto::hmac::Hmac over crypto::sha2::Sha256: the 32-byte tag
/// is a deterministic function of the key and the message alone.
#[verifier::external_body]
pub(crate) fn hmac_sha256(key: &[u8], data: &[u8]) -> (r: Vec<u8>)
    ensures
        r@ == mac_of(key@, data@),
        r@.len() == MAC_SIZE,
{
    let mut hmac = crypto::hmac::Hmac::new(crypto::sha2::Sha256::new(), key);
    hmac.input(data);
    hmac.result().code().to_vec()
}

} // verus!
