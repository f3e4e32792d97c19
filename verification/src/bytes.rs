//! Octet strings: copying and comparing.

use vstd::prelude::*;

verus! {

/// Copies `input` into a new vector.
pub fn to_vec(input: &[u8]) -> (r: Vec<u8>)
    ensures
        r@ == input@,
{
    let len = input.len();
    let mut out: Vec<u8> = Vec::new();
    let mut i: usize = 0;
    while i < len
        invariant
            i <= len,
            len == input@.len(),
            out@ == input@.subrange(0, i as int),
        decreases len - i,
    {
        out.push(input[i]);
        i += 1;
    }
    assert(input@.subrange(0, len as int) =~= input@);
    out
}

/// Whether `a` and `b` hold the same octets.
pub fn bytes_eq(a: &[u8], b: &[u8]) -> (r: bool)
    ensures
        r == (a@ == b@),
{
    let len = a.len();
    if b.len() != len {
        return false;
    }
    let mut i: usize = 0;
    while i < len
        invariant
            i <= len,
            len == a@.len(),
            len == b@.len(),
            forall|j: int| 0 <= j < i ==> a@[j] == b@[j],
        decreases len - i,
    {
        if a[i] != b[i] {
            return false;
        }
        i += 1;
    }
    assert(a@ =~= b@);
    true
}

} // verus!
