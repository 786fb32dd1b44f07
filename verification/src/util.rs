//! Small verified helpers on byte vectors shared by the key and noise
//! modules.

use vstd::prelude::*;

verus! {

/// Concatenation of two byte strings into a fresh vector.
pub fn bytes_concat(a: &[u8], b: &[u8]) -> (r: Vec<u8>)
    ensures
        r@ == a@ + b@,
{
    let mut r = vstd::slice::slice_to_vec(a);
    let mut tail = vstd::slice::slice_to_vec(b);
    r.append(&mut tail);
    r
}

/// Copy of the byte range `[start, end)` of a slice.
pub fn bytes_range(a: &[u8], start: usize, end: usize) -> (r: Vec<u8>)
    requires
        start <= end <= a@.len(),
    ensures
        r@ == a@.subrange(start as int, end as int),
{
    vstd::slice::slice_to_vec(vstd::slice::slice_subrange(a, start, end))
}

/// A vector of `len` zero bytes.
pub fn bytes_zero(len: usize) -> (r: Vec<u8>)
    ensures
        r@ == Seq::<u8>::new(len as nat, |i: int| 0u8),
{
    let mut r: Vec<u8> = Vec::new();
    let mut i: usize = 0;
    while i < len
        invariant
            i <= len,
            r@ == Seq::<u8>::new(i as nat, |j: int| 0u8),
        decreases len - i,
    {
        r.push(0u8);
        i += 1;
        proof {
            assert(r@ =~= Seq::<u8>::new(i as nat, |j: int| 0u8));
        }
    }
    r
}

} // verus!
