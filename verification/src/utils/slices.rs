use vstd::prelude::*;

verus! {

/// The `N` bytes of `s` from `lo` on, as an array.
pub fn take_bytes<const N: usize>(s: &[u8], lo: usize) -> (r: [u8; N])
    requires
        lo + N <= s@.len(),
    ensures
        r@ == s@.subrange(lo as int, lo + N),
{
    let mut r = [0u8; N];
    let slen = s.len();
    let mut t: usize = 0;
    while t < N
        invariant
            0 <= t <= N,
            slen == s@.len(),
            lo + N <= s@.len(),
            forall|j: int| 0 <= j < t ==> #[trigger] r@[j] == s@[lo + j],
        decreases N - t,
    {
        r[t] = s[lo + t];
        t = t + 1;
    }
    assert(r@ =~= s@.subrange(lo as int, lo + N));
    r
}

/// The `N` field elements of `s` from `lo` on, as an array.
pub fn take_rows<const N: usize>(s: &[[u8; 16]], lo: usize) -> (r: [[u8; 16]; N])
    requires
        lo + N <= s@.len(),
    ensures
        r@ == s@.subrange(lo as int, lo + N),
{
    let mut r = [[0u8; 16]; N];
    let slen = s.len();
    let mut t: usize = 0;
    while t < N
        invariant
            0 <= t <= N,
            slen == s@.len(),
            lo + N <= s@.len(),
            forall|j: int| 0 <= j < t ==> #[trigger] r@[j] == s@[lo + j],
        decreases N - t,
    {
        r[t] = s[lo + t];
        t = t + 1;
    }
    assert(r@ =~= s@.subrange(lo as int, lo + N));
    r
}

} // verus!
