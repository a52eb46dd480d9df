use vstd::prelude::*;

verus! {

/// True when every byte of `b` is zero.
pub open spec fn all_zero(b: Seq<u8>) -> bool {
    forall|i: int| 0 <= i < b.len() ==> b[i] == 0
}

/// Returns whether any byte of `b` is non-zero.
pub fn any_nonzero(b: &[u8]) -> (r: bool)
    ensures
        r == !all_zero(b@),
{
    let mut i: usize = 0;
    while i < b.len()
        invariant
            0 <= i <= b@.len(),
            all_zero(b@.subrange(0, i as int)),
        decreases b@.len() - i,
    {
        if b[i] != 0 {
            return true;
        }
        i = i + 1;
    }
    assert(b@.subrange(0, i as int) =~= b@);
    false
}

/// Compares two 32-byte digests byte by byte.
pub fn digest_eq(a: &[u8; 32], b: &[u8; 32]) -> (r: bool)
    ensures
        r == (a@ == b@),
{
    let mut i: usize = 0;
    while i < 32
        invariant
            0 <= i <= 32,
            a@.len() == 32,
            b@.len() == 32,
            forall|k: int| 0 <= k < i ==> a@[k] == b@[k],
        decreases 32 - i,
    {
        if a[i] != b[i] {
            return false;
        }
        i = i + 1;
    }
    assert(a@ =~= b@);
    true
}

} // verus!
