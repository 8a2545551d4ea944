//! Errors of the key store and the content cipher.

use vstd::prelude::*;

verus! {

/// Why opening or using a store failed.
///
/// A wrong passphrase and a tampered key file are indistinguishable by
/// design: both surface as `MacMismatch` (or, past the authentication
/// check, `DecryptFailed`).
#[derive(Clone, Copy, Debug, PartialEq, Eq, Structural)]
pub enum StoreError {
    /// The passphrase was empty at store creation or open time.
    EmptyPassphrase,
    /// The key file is too short to hold all of its fixed-size fields.
    Truncated,
    /// The key file's version byte is not the supported format version.
    UnsupportedVersion,
    /// The authentication tag recomputed from the passphrase does not match
    /// the tag stored in the key file.
    MacMismatch,
    /// Unwrapping the store key, or decrypting file contents, failed.
    DecryptFailed,
    /// The secure random source failed to produce bytes.
    RandomFailure,
}

impl StoreError {
    /// A short human-readable description of the error.
    pub fn describe(&self) -> &'static str {
        match self {
            StoreError::EmptyPassphrase => "empty passphrase",
            StoreError::Truncated => "truncated key file",
            StoreError::UnsupportedVersion => "invalid index store version",
            StoreError::MacMismatch => "invalid MAC of the store key",
            StoreError::DecryptFailed => "error decrypting store key",
            StoreError::RandomFailure => "error generating random bytes",
        }
    }
}

} // verus!
