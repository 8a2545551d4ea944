//! The persisted key-file record and its exact byte layout:
//! `version(1) ‖ iv(16) ‖ salt(16) ‖ mac(32) ‖ wrapped key(N)`.

use vstd::prelude::*;

use crate::bytes::{append_all, copy_range};
use crate::{HEADER_SIZE, KEY_SIZE, MAC_SIZE, SALT_SIZE};
use crate::StoreError;

verus! {

/// The mathematical content of a key file.
pub ghost struct KeyFileAbs {
    pub version: u8,
    pub iv: Seq<u8>,
    pub salt: Seq<u8>,
    pub mac: Seq<u8>,
    pub wrapped_key: Seq<u8>,
}

impl KeyFileAbs {
    /// Field sizes every key file holds: a 16-byte IV, a 16-byte salt and
    /// a 32-byte tag.
    pub open spec fn wf(self) -> bool {
        &&& self.iv.len() == KEY_SIZE
        &&& self.salt.len() == SALT_SIZE
        &&& self.mac.len() == MAC_SIZE
    }

    /// The serialized form: version, IV, salt, tag and wrapped key, in that
    /// exact byte order.
    pub open spec fn bytes(self) -> Seq<u8> {
        seq![self.version] + self.iv + self.salt + self.mac + self.wrapped_key
    }
}

/// What a byte string parses to: the fixed-size fields in their fixed
/// order, the rest as the wrapped key — or nothing when the string cannot
/// hold all fixed-size fields.
pub open spec fn parse_spec(b: Seq<u8>) -> Option<KeyFileAbs> {
    if b.len() < HEADER_SIZE {
        None
    } else {
        Some(
            KeyFileAbs {
                version: b[0],
                iv: b.subrange(1, 17),
                salt: b.subrange(17, 33),
                mac: b.subrange(33, 65),
                wrapped_key: b.subrange(65, b.len() as int),
            },
        )
    }
}

/// The in-memory key-file record.
pub struct KeyFile {
    pub version: u8,
    pub iv: Vec<u8>,
    pub salt: Vec<u8>,
    pub mac: Vec<u8>,
    pub wrapped_key: Vec<u8>,
}

impl View for KeyFile {
    type V = KeyFileAbs;

    open spec fn view(&self) -> KeyFileAbs {
        KeyFileAbs {
            version: self.version,
            iv: self.iv@,
            salt: self.salt@,
            mac: self.mac@,
            wrapped_key: self.wrapped_key@,
        }
    }
}

impl KeyFile {
    /// Read the fields out of a serialized key file.  Returns `Truncated`
    /// exactly when the input is too short for the fixed-size fields; the
    /// version byte is read, not judged, here.
    pub fn parse(bytes: &[u8]) -> (r: Result<KeyFile, StoreError>)
        ensures
            match r {
                Ok(kf) => parse_spec(bytes@) == Some(kf@) && kf@.wf(),
                Err(e) => e == StoreError::Truncated && parse_spec(bytes@) is None,
            },
    {
        if bytes.len() < HEADER_SIZE {
            return Err(StoreError::Truncated);
        }
        let version = bytes[0];
        let iv = copy_range(bytes, 1, 17);
        let salt = copy_range(bytes, 17, 33);
        let mac = copy_range(bytes, 33, 65);
        let wrapped_key = copy_range(bytes, 65, bytes.len());
        Ok(KeyFile { version, iv, salt, mac, wrapped_key })
    }

    /// Serialize the record in the fixed byte order.
    pub fn serialize(&self) -> (r: Vec<u8>)
        ensures
            r@ == self@.bytes(),
    {
        let mut out: Vec<u8> = Vec::new();
        out.push(self.version);
        append_all(&mut out, self.iv.as_slice());
        append_all(&mut out, self.salt.as_slice());
        append_all(&mut out, self.mac.as_slice());
        append_all(&mut out, self.wrapped_key.as_slice());
        proof {
            assert(out@ =~= self@.bytes());
        }
        out
    }
}

/// Parsing inverts serialization: a well-formed record, written down and
/// read back, is recovered exactly.
pub proof fn lemma_parse_inverts_bytes(kf: KeyFileAbs)
    requires
        kf.wf(),
    ensures
        parse_spec(kf.bytes()) == Some(kf),
{
    let b = kf.bytes();
    assert(b.len() == 65 + kf.wrapped_key.len());
    assert(b.subrange(1, 17) =~= kf.iv);
    assert(b.subrange(17, 33) =~= kf.salt);
    assert(b.subrange(33, 65) =~= kf.mac);
    assert(b.subrange(65, b.len() as int) =~= kf.wrapped_key);
}

/// Serialization inverts parsing: whatever parses back to a record is that
/// record's own serialization, so parsing loses no byte.
pub proof fn lemma_bytes_invert_parse(b: Seq<u8>, kf: KeyFileAbs)
    requires
        parse_spec(b) == Some(kf),
    ensures
        kf.bytes() == b,
        kf.wf(),
{
    assert(kf.bytes() =~= b);
}

} // verus!
