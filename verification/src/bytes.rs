//! Comparing and joining byte strings.

use vstd::prelude::*;

verus! {

/// Whether two byte strings are the same.
pub fn bytes_equal(a: &[u8], b: &[u8]) -> (equal: bool)
    ensures
        equal == (a@ == b@),
{
    if a.len() != b.len() {
        return false;
    }
    for i in 0..a.len()
        invariant
            a@.len() == b@.len(),
            forall|j: int| 0 <= j < i ==> a@[j] == b@[j],
    {
        if a[i] != b[i] {
            return false;
        }
    }
    assert(a@ =~= b@);
    true
}

/// Writes `source` over the part of `target` that begins at `start`.
pub fn copy_at(target: &mut [u8], start: usize, source: &[u8])
    requires
        start + source@.len() <= old(target)@.len(),
    ensures
        final(target)@ == old(target)@.take(start as int) + source@ + old(target)@.skip(
            start + source@.len(),
        ),
{
    let end: usize = target.len();
    for i in 0..source.len()
        invariant
            end == target@.len(),
            start + source@.len() <= old(target)@.len(),
            target@.len() == old(target)@.len(),
            forall|j: int|
                0 <= j < target@.len() ==> target@[j] == if start <= j < start + i {
                    source@[j - start]
                } else {
                    old(target)@[j]
                },
    {
        target[start + i] = source[i];
    }
    assert(target@ =~= old(target)@.take(start as int) + source@ + old(target)@.skip(
        start + source@.len(),
    ));
}

} // verus!
