//! Reading fixed runs of bytes off the front of a byte cursor.

use vstd::prelude::*;
use vstd::slice::slice_subrange;

verus! {

/// Takes exactly `N` bytes off the front of `reader`.
///
/// With fewer than `N` bytes left nothing is taken and the cursor stays where
/// it was.
pub fn read_exact<const N: usize>(reader: &mut &[u8]) -> (r: Option<[u8; N]>)
    ensures
        old(reader)@.len() >= N ==> r is Some && r->Some_0@ == old(reader)@.take(N as int)
            && final(reader)@ == old(reader)@.skip(N as int),
        old(reader)@.len() < N ==> r is None && final(reader)@ == old(reader)@,
{
    let src: &[u8] = *reader;
    let len: usize = src.len();
    if len < N {
        return None;
    }
    let mut out: [u8; N] = [0u8; N];
    let mut i: usize = 0;
    while i < N
        invariant
            i <= N <= src@.len(),
            forall|j: int| 0 <= j < i ==> out@[j] == src@[j],
        decreases N - i,
    {
        out[i] = src[i];
        i = i + 1;
    }
    assert(out@ =~= src@.take(N as int));
    *reader = slice_subrange(src, N, len);
    Some(out)
}

} // verus!
