//! Small helpers on byte strings shared by the serializers.

use vstd::prelude::*;

verus! {

/// Whether two byte strings hold the same bytes.
pub fn bytes_equal(a: &[u8], b: &[u8]) -> (same: bool)
    ensures
        same == (a@ == b@),
{
    if a.len() != b.len() {
        return false;
    }
    let mut i: usize = 0;
    while i < a.len()
        invariant
            a.len() == b.len(),
            i <= a.len(),
            forall|k: int| 0 <= k < i ==> a@[k] == b@[k],
        decreases a.len() - i,
    {
        if a[i] != b[i] {
            return false;
        }
        i += 1;
    }
    assert(a@ =~= b@);
    true
}

/// Appends `src` to `buffer`.
pub fn append_bytes(buffer: &mut Vec<u8>, src: &[u8])
    ensures
        final(buffer)@ == old(buffer)@ + src@,
{
    buffer.extend_from_slice(src);
}

/// The first `N` bytes of `buffer`, where it has that many.
pub fn read_array<const N: usize>(buffer: &[u8]) -> (outcome: Option<[u8; N]>)
    ensures
        match outcome {
            Some(out) => N <= buffer@.len() && out@ == buffer@.take(N as int),
            None => buffer@.len() < N,
        },
{
    if buffer.len() < N {
        return None;
    }
    let mut out: [u8; N] = [0u8; N];
    let mut i: usize = 0;
    while i < N
        invariant
            i <= N <= buffer@.len(),
            forall|k: int| 0 <= k < i ==> out@[k] == buffer@[k],
        decreases N - i,
    {
        out[i] = buffer[i];
        i += 1;
    }
    assert(out@ =~= buffer@.take(N as int));
    Some(out)
}

} // verus!
