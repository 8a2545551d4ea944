//! The secure random source behind salts, IVs and store keys.

use vstd::prelude::*;

use rand::Rng;

use crate::StoreError;

verus! {

/// Relies on rand::thread_rng and rand::Rng::try_fill: on success the
/// buffer holds `n` bytes from a cryptographically secure random source.
/// Nothing is promised of their values.
#[verifier::external_body]
pub(crate) fn random_bytes(n: usize) -> (r: Result<Vec<u8>, StoreError>)
    ensures
        match r {
            Ok(v) => v@.len() == n,
            Err(e) => e == StoreError::RandomFailure,
        },
{
    let mut buf = vec![0u8; n];
    match rand::thread_rng().try_fill(&mut buf[..]) {
        Ok(()) => Ok(buf),
        Err(_) => Err(StoreError::RandomFailure),
    }
}

} // verus!
