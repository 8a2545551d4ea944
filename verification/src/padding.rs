//! PKCS block padding: the rule that extends a plaintext to whole cipher
//! blocks before encryption, and its verified inverse, stripping the
//! padding from a decrypted buffer.

use vstd::prelude::*;

use crate::bytes::copy_range;

verus! {

/// The padded form of a non-empty plaintext: extended to the next multiple
/// of the 16-byte block size — always by one to sixteen bytes, each
/// holding the number of bytes added.
pub open spec fn pkcs_pad_spec(data: Seq<u8>) -> Seq<u8> {
    let n = 16 - (data.len() % 16);
    data + Seq::new(n as nat, |i: int| n as u8)
}

/// What stripping the padding from a decrypted buffer yields: the last
/// byte names how many bytes to remove; it must be between 1 and 16, not
/// exceed the length, and every removed byte must hold that same value —
/// anything else is invalid padding, and nothing is yielded.
pub open spec fn pkcs_strip_spec(b: Seq<u8>) -> Option<Seq<u8>> {
    if b.len() == 0 {
        None
    } else {
        let n = b[b.len() - 1] as int;
        if 1 <= n <= 16 && n <= b.len() && (forall|i: int|
            b.len() - n <= i < b.len() ==> b[i] == n as u8) {
            Some(b.subrange(0, b.len() - n))
        } else {
            None
        }
    }
}

/// Strip the padding from a decrypted buffer, or report it invalid.
pub(crate) fn pkcs_strip(b: &[u8]) -> (r: Option<Vec<u8>>)
    ensures
        match r {
            Some(v) => pkcs_strip_spec(b@) == Some(v@),
            None => pkcs_strip_spec(b@) is None,
        },
{
    if b.len() == 0 {
        return None;
    }
    let last = b[b.len() - 1];
    let n = last as usize;
    if n < 1 || n > 16 || n > b.len() {
        return None;
    }
    let start = b.len() - n;
    let mut i: usize = start;
    while i < b.len()
        invariant
            n == last as int,
            1 <= n <= 16,
            n <= b@.len(),
            start == b@.len() - n,
            start <= i <= b@.len(),
            b@[b@.len() - 1] == last,
            forall|j: int| start <= j < i ==> b@[j] == last,
        decreases b@.len() - i,
    {
        if b[i] != last {
            proof {
                assert(b@[i as int] != last);
            }
            return None;
        }
        i = i + 1;
    }
    Some(copy_range(b, 0, start))
}

/// Stripping inverts padding: whatever plaintext was padded, the strip
/// yields exactly that plaintext back.
pub proof fn lemma_strip_inverts_pad(data: Seq<u8>)
    ensures
        pkcs_strip_spec(pkcs_pad_spec(data)) == Some(data),
{
    let n = 16 - (data.len() % 16);
    let p = pkcs_pad_spec(data);
    assert(p.len() == data.len() + n);
    assert(p[p.len() - 1] == n as u8);
    assert(forall|i: int| p.len() - n <= i < p.len() ==> p[i] == n as u8);
    assert(p.subrange(0, p.len() - n) =~= data);
}

} // verus!
