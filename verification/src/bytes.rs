//! Verified helpers on byte slices and vectors.

use vstd::prelude::*;

verus! {

/// Copy `b[lo..hi]` into a fresh vector.
pub fn copy_range(b: &[u8], lo: usize, hi: usize) -> (r: Vec<u8>)
    requires
        lo <= hi <= b@.len(),
    ensures
        r@ == b@.subrange(lo as int, hi as int),
{
    let mut out: Vec<u8> = Vec::new();
    let mut i: usize = lo;
    while i < hi
        invariant
            lo <= i <= hi <= b@.len(),
            out@ == b@.subrange(lo as int, i as int),
        decreases hi - i,
    {
        out.push(b[i]);
        proof {
            assert(out@ =~= b@.subrange(lo as int, i + 1));
        }
        i = i + 1;
    }
    out
}

/// Append every byte of `src` to `out`.
pub fn append_all(out: &mut Vec<u8>, src: &[u8])
    ensures
        final(out)@ == old(out)@ + src@,
{
    let mut i: usize = 0;
    while i < src.len()
        invariant
            i <= src@.len(),
            out@ == old(out)@ + src@.subrange(0, i as int),
        decreases src@.len() - i,
    {
        out.push(src[i]);
        proof {
            assert(old(out)@ + src@.subrange(0, i + 1) =~= (old(out)@ + src@.subrange(
                0,
                i as int,
            )).push(src@[i as int]));
        }
        i = i + 1;
    }
    proof {
        assert(src@.subrange(0, src@.len() as int) =~= src@);
    }
}

/// Byte-slice equality in constant time: the comparison touches every byte
/// of both slices and never exits early, so its running time depends only
/// on the lengths, never on where the slices first differ.
pub fn ct_eq(a: &[u8], b: &[u8]) -> (r: bool)
    ensures
        r <==> a@ == b@,
{
    if a.len() != b.len() {
        return false;
    }
    let mut acc: u8 = 0;
    let mut i: usize = 0;
    proof {
        assert(forall|p: u8, q: u8| (#[trigger] (p ^ q)) == 0 <==> p == q) by (bit_vector);
        assert(forall|p: u8, q: u8| (#[trigger] (p | q)) == 0 <==> (p == 0 && q == 0))
            by (bit_vector);
    }
    while i < a.len()
        invariant
            a@.len() == b@.len(),
            i <= a@.len(),
            acc == 0 <==> (forall|j: int| 0 <= j < i ==> a@[j] == b@[j]),
            forall|p: u8, q: u8| (#[trigger] (p ^ q)) == 0 <==> p == q,
            forall|p: u8, q: u8| (#[trigger] (p | q)) == 0 <==> (p == 0 && q == 0),
        decreases a@.len() - i,
    {
        let d = a[i] ^ b[i];
        acc = acc | d;
        i = i + 1;
    }
    proof {
        if acc == 0 {
            assert(a@ =~= b@);
        }
    }
    acc == 0
}

} // verus!
