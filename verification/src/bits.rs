//! Small facts about machine-word flag arithmetic, shared by the delivery
//! proofs.

use vstd::prelude::*;

verus! {

/// A mask always contains itself.
pub proof fn lemma_self_mask(m: usize)
    ensures
        (m & m) == m,
{
    assert((m & m) == m) by (bit_vector);
}

/// A set that contains a mask still contains it after a union.
pub proof fn lemma_or_keeps_mask(x: usize, y: usize, m: usize)
    requires
        (x & m) == m,
    ensures
        ((x | y) & m) == m,
{
    assert((x & m) == m ==> ((x | y) & m) == m) by (bit_vector);
}

/// Restricting to a superset of `i` does not change the intersection
/// with `i`.
pub proof fn lemma_and_or_intersect(b: usize, i: usize, m: usize)
    ensures
        ((b & (i | m)) & i) == (b & i),
{
    assert(((b & (i | m)) & i) == (b & i)) by (bit_vector);
}

/// An intersection with a set holds nothing outside that set.
pub proof fn lemma_intersect_subset(b: usize, s: usize)
    ensures
        ((b & s) & !s) == 0,
{
    assert(((b & s) & !s) == 0) by (bit_vector);
}

/// The empty set intersects nothing.
pub proof fn lemma_zero_and(i: usize)
    ensures
        (0usize & i) == 0,
{
    assert((0usize & i) == 0) by (bit_vector);
}

} // verus!
