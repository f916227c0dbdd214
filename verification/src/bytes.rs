//! Small verified helpers on byte slices and vectors.

use vstd::prelude::*;

verus! {

/// Copy the bytes of `h` in `[s, e)` into a fresh vector.
pub fn copy_range(h: &[u8], s: usize, e: usize) -> (r: Vec<u8>)
    requires
        s <= e <= h@.len(),
    ensures
        r@ == h@.subrange(s as int, e as int),
{
    let mut v: Vec<u8> = Vec::new();
    let mut k: usize = s;
    while k < e
        invariant
            s <= k <= e <= h@.len(),
            v@ =~= h@.subrange(s as int, k as int),
        decreases e - k,
    {
        v.push(h[k]);
        k = k + 1;
    }
    assert(v@ =~= h@.subrange(s as int, e as int));
    v
}

/// Append all bytes of `src` to `dst`.
pub fn push_all(dst: &mut Vec<u8>, src: &[u8])
    ensures
        final(dst)@ == old(dst)@ + src@,
{
    let mut k: usize = 0;
    while k < src.len()
        invariant
            0 <= k <= src@.len(),
            dst@ =~= old(dst)@ + src@.subrange(0, k as int),
        decreases src@.len() - k,
    {
        dst.push(src[k]);
        k = k + 1;
    }
    assert(dst@ =~= old(dst)@ + src@);
}

} // verus!
