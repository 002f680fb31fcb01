//! Conversion between the two orders in which the three colour channels of a
//! pixel are stored.
use vstd::prelude::*;

verus! {

/// The buffer `s` with the first and the third byte of every whole pixel of
/// three bytes exchanged. Bytes after the last whole pixel stay where they
/// are.
pub open spec fn channels_swapped(s: Seq<u8>) -> Seq<u8> {
    Seq::new(
        s.len(),
        |i: int|
            if 3 * (i / 3) + 3 <= s.len() {
                s[3 * (i / 3) + 2 - i % 3]
            } else {
                s[i]
            },
    )
}

/// Converts a buffer of three-byte pixels from blue-green-red to
/// red-green-blue order.
pub fn bgr_to_rgb(bytes: &[u8]) -> (out: Vec<u8>)
    ensures
        out@ == channels_swapped(bytes@),
        out@.len() == bytes@.len(),
{
    let n = bytes.len();
    let mut out: Vec<u8> = Vec::new();
    let mut i: usize = 0;
    while n - i >= 3
        invariant
            n == bytes@.len(),
            i <= n,
            i % 3 == 0,
            out@.len() == i,
            forall|j: int| 0 <= j < i ==> out@[j] == channels_swapped(bytes@)[j],
        decreases n - i,
    {
        out.push(bytes[i + 2]);
        out.push(bytes[i + 1]);
        out.push(bytes[i]);
        i = i + 3;
    }
    while i < n
        invariant
            n == bytes@.len(),
            i <= n,
            3 * (i / 3) + 3 > n,
            out@.len() == i,
            forall|j: int| 0 <= j < i ==> out@[j] == channels_swapped(bytes@)[j],
        decreases n - i,
    {
        out.push(bytes[i]);
        i = i + 1;
    }
    assert(out@ =~= channels_swapped(bytes@));
    out
}

} // verus!
