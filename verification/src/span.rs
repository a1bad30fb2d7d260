//! Byte sequences laid over a range of a span, and copying between slices.

use vstd::prelude::*;

verus! {

/// `span` with `bytes` written over the positions from `at` on.
pub open spec fn splice(span: Seq<u8>, at: nat, bytes: Seq<u8>) -> Seq<u8>
    recommends
        at + bytes.len() <= span.len(),
{
    span.subrange(0, at as int) + bytes + span.subrange(
        (at + bytes.len()) as int,
        span.len() as int,
    )
}

/// `len` bytes, each of them `value`.
pub open spec fn repeat(value: u8, len: nat) -> Seq<u8> {
    Seq::new(len, |i: int| value)
}

/// Copies `src` over `dst`, which has the same length.
pub fn copy_all(dst: &mut [u8], src: &[u8])
    requires
        old(dst)@.len() == src@.len(),
    ensures
        final(dst)@ == src@,
{
    let n: usize = src.len();
    let mut i: usize = 0;
    while i < n
        invariant
            n == src@.len() == dst@.len(),
            i <= n,
            forall|k: int| 0 <= k < i ==> dst@[k] == src@[k],
        decreases n - i,
    {
        dst[i] = src[i];
        i += 1;
    }
    assert(dst@ =~= src@);
}

} // verus!
