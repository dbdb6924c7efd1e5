//! Bookkeeping for a per-direction filter backend.
//!
//! The BSD event queue knows no combined read-and-write subscription: one
//! logical registration is up to two native filters, one per direction.
//! Rebinding a registration therefore computes a delta — filters for
//! dropped directions are removed, filters for added directions are
//! added, surviving filters are mutated in place — and one wait may
//! report several native events for the same identifier, which must be
//! coalesced into a single delivered event holding the union of their
//! readiness.  Both computations are pure and verified here; the native
//! calls they would drive exist only on that platform.

use vstd::prelude::*;

use crate::event::Interest;
use crate::event::INT_ERROR;
use crate::event::INT_HUP;
use crate::event::INT_READABLE;
use crate::event::INT_WRITABLE;

verus! {

/// What a rebind does to one direction's native filter.
#[derive(Copy, Clone, Debug, PartialEq, Eq, Structural)]
pub enum FilterChange {
    /// The direction stays unsubscribed.
    Absent,
    /// The direction is newly subscribed: add its filter.
    Add,
    /// The direction is no longer wanted: remove its filter.
    Remove,
    /// The direction survives: mutate its filter with the new flags.
    Mutate,
}

/// The change a direction undergoes when the subscribed interests move
/// from `had` to `wants` (each a boolean for this direction).
pub open spec fn filter_change_spec(had: bool, wants: bool) -> FilterChange {
    if had && wants {
        FilterChange::Mutate
    } else if had {
        FilterChange::Remove
    } else if wants {
        FilterChange::Add
    } else {
        FilterChange::Absent
    }
}

/// Compute the per-direction filter delta for a rebind from interests
/// `old_interest` to `new_interest`: the read direction's change and the
/// write direction's change.
pub fn filter_delta(old_interest: Interest, new_interest: Interest) -> (r: (
    FilterChange,
    FilterChange,
))
    ensures
        r.0 == filter_change_spec(
            (old_interest.0 & INT_READABLE) == INT_READABLE,
            (new_interest.0 & INT_READABLE) == INT_READABLE,
        ),
        r.1 == filter_change_spec(
            (old_interest.0 & INT_WRITABLE) == INT_WRITABLE,
            (new_interest.0 & INT_WRITABLE) == INT_WRITABLE,
        ),
{
    let read = filter_change(old_interest.is_readable(), new_interest.is_readable());
    let write = filter_change(old_interest.is_writable(), new_interest.is_writable());
    (read, write)
}

/// One direction's change; see [`filter_change_spec`].
pub fn filter_change(had: bool, wants: bool) -> (r: FilterChange)
    ensures
        r == filter_change_spec(had, wants),
{
    if had && wants {
        FilterChange::Mutate
    } else if had {
        FilterChange::Remove
    } else if wants {
        FilterChange::Add
    } else {
        FilterChange::Absent
    }
}

/// The readiness an end-of-file report carries: a clean end-of-file is a
/// hangup, one with a nonzero filter-flag word is an error condition.
pub open spec fn eof_readiness_spec(fflags: u32) -> usize {
    if fflags == 0 {
        INT_HUP
    } else {
        INT_ERROR
    }
}

/// Classify a native end-of-file report; see [`eof_readiness_spec`].
pub fn eof_readiness(fflags: u32) -> (r: Interest)
    ensures
        r.0 == eof_readiness_spec(fflags),
{
    if fflags == 0 {
        Interest(INT_HUP)
    } else {
        Interest(INT_ERROR)
    }
}

/// Whether some report of the batch `s` names the identifier `id`.
pub open spec fn has_ident(s: Seq<(u64, usize)>, id: u64) -> bool {
    exists|k: int| 0 <= k < s.len() && (#[trigger] s[k]).0 == id
}

/// The union of the readiness bits that the batch `s` reports for the
/// identifier `id`.
pub open spec fn readiness_union(s: Seq<(u64, usize)>, id: u64) -> usize
    decreases s.len(),
{
    if s.len() == 0 {
        0
    } else {
        (if s.last().0 == id {
            s.last().1
        } else {
            0
        }) | readiness_union(s.drop_last(), id)
    }
}

/// An identifier a batch never mentions has no readiness in it.
proof fn lemma_union_absent(s: Seq<(u64, usize)>, id: u64)
    requires
        forall|i: int| 0 <= i < s.len() ==> (#[trigger] s[i]).0 != id,
    ensures
        readiness_union(s, id) == 0,
    decreases s.len(),
{
    if s.len() > 0 {
        lemma_union_absent(s.drop_last(), id);
        assert((0usize | 0usize) == 0) by (bit_vector);
    }
}

/// The union over a batch extended by one report.
proof fn lemma_union_push(s: Seq<(u64, usize)>, p: (u64, usize), id: u64)
    ensures
        readiness_union(s.push(p), id) == ((if p.0 == id {
            p.1
        } else {
            0
        }) | readiness_union(s, id)),
{
    assert(s.push(p).last() == p);
    assert(s.push(p).drop_last() =~= s);
}

/// A union of nothing new keeps its value.
proof fn lemma_or_zero_left(x: usize)
    ensures
        (0usize | x) == x,
{
    assert((0usize | x) == x) by (bit_vector);
}

/// The union operator commutes.
proof fn lemma_or_comm(x: usize, y: usize)
    ensures
        (x | y) == (y | x),
{
    assert((x | y) == (y | x)) by (bit_vector);
}

/// A report batch extended by one report keeps every identifier it had.
proof fn lemma_has_ident_extend(s: Seq<(u64, usize)>, p: (u64, usize), id: u64)
    requires
        has_ident(s, id),
    ensures
        has_ident(s.push(p), id),
{
    let w = choose|w: int| 0 <= w < s.len() && (#[trigger] s[w]).0 == id;
    assert(s.push(p)[w].0 == id);
}

/// Two batches that report the same identifiers position for position
/// name the same identifiers.
proof fn lemma_has_ident_same_idents(a: Seq<(u64, usize)>, b: Seq<(u64, usize)>, id: u64)
    requires
        a.len() == b.len(),
        forall|j: int| 0 <= j < a.len() ==> (#[trigger] a[j]).0 == b[j].0,
        has_ident(a, id),
    ensures
        has_ident(b, id),
{
    let w = choose|w: int| 0 <= w < a.len() && (#[trigger] a[w]).0 == id;
    assert(b[w].0 == id);
}

/// Coalesce one wait's worth of native reports: each identifier appears
/// exactly once in the result, carrying the union of every readiness the
/// batch reported for it, and no identifier is invented.
pub fn coalesce(raw: &Vec<(u64, usize)>) -> (r: Vec<(u64, usize)>)
    ensures
        forall|i: int, j: int| 0 <= i < j < r@.len() ==> r@[i].0 != r@[j].0,
        forall|k: int|
            0 <= k < r@.len() ==> (#[trigger] r@[k]).1 == readiness_union(raw@, r@[k].0),
        forall|i: int| 0 <= i < raw@.len() ==> has_ident(r@, (#[trigger] raw@[i]).0),
        forall|k: int| 0 <= k < r@.len() ==> has_ident(raw@, (#[trigger] r@[k]).0),
{
    let mut out: Vec<(u64, usize)> = Vec::new();
    let n = raw.len();
    let mut i: usize = 0;
    while i < n
        invariant
            n == raw@.len(),
            i <= n,
            forall|p: int, q: int| 0 <= p < q < out@.len() ==> out@[p].0 != out@[q].0,
            forall|k: int|
                0 <= k < out@.len() ==> (#[trigger] out@[k]).1 == readiness_union(
                    raw@.subrange(0, i as int),
                    out@[k].0,
                ),
            forall|p: int|
                0 <= p < i ==> has_ident(out@, (#[trigger] raw@[p]).0),
            forall|k: int|
                0 <= k < out@.len() ==> has_ident(
                    raw@.subrange(0, i as int),
                    (#[trigger] out@[k]).0,
                ),
        decreases n - i,
    {
        let p: (u64, usize) = raw[i];
        let ghost prefix = raw@.subrange(0, i as int);
        let ghost out0 = out@;
        proof {
            assert(raw@.subrange(0, i as int + 1) =~= prefix.push(p));
        }
        let mut k: usize = 0;
        let m = out.len();
        let mut found: bool = false;
        while k < m && !found
            invariant
                m == out@.len(),
                k <= m,
                !found ==> forall|q: int| 0 <= q < k ==> (#[trigger] out@[q]).0 != p.0,
                found ==> k < m && out@[k as int].0 == p.0,
            decreases m - k + (if found {
                0int
            } else {
                1int
            }),
        {
            if out[k].0 == p.0 {
                found = true;
            } else {
                k = k + 1;
            }
        }
        if found {
            let entry = &mut out[k];
            let merged: usize = entry.1 | p.1;
            entry.1 = merged;
            proof {
                assert forall|j: int| 0 <= j < out@.len() implies (#[trigger] out@[j]).0
                    == out0[j].0 by {
                    if j != k as int {
                        assert(out@[j] == out0[j]);
                    }
                }
                assert forall|kk: int|
                    0 <= kk < out@.len() implies (#[trigger] out@[kk]).1 == readiness_union(
                    prefix.push(p),
                    out@[kk].0,
                ) by {
                    lemma_union_push(prefix, p, out@[kk].0);
                    if kk == k as int {
                        lemma_or_comm(readiness_union(prefix, p.0), p.1);
                    } else {
                        assert(out@[kk] == out0[kk]);
                        assert(out@[kk].0 != p.0);
                        lemma_or_zero_left(readiness_union(prefix, out@[kk].0));
                    }
                }
                assert forall|q: int|
                    0 <= q < i as int + 1 implies has_ident(out@, (#[trigger] raw@[q]).0) by {
                    if q < i as int {
                        lemma_has_ident_same_idents(out0, out@, raw@[q].0);
                    } else {
                        assert(out@[k as int].0 == p.0);
                    }
                }
                assert forall|kk: int|
                    0 <= kk < out@.len() implies has_ident(
                    prefix.push(p),
                    (#[trigger] out@[kk]).0,
                ) by {
                    if kk == k as int {
                        assert(prefix.push(p)[prefix.len() as int].0 == p.0);
                    } else {
                        assert(out@[kk] == out0[kk]);
                        lemma_has_ident_extend(prefix, p, out@[kk].0);
                    }
                }
            }
        } else {
            proof {
                assert forall|q: int| 0 <= q < prefix.len() implies (#[trigger] prefix[q]).0
                    != p.0 by {
                    if prefix[q].0 == p.0 {
                        assert(raw@[q].0 == p.0);
                        assert(has_ident(out@, raw@[q].0));
                        let w = choose|w: int|
                            0 <= w < out@.len() && (#[trigger] out@[w]).0 == raw@[q].0;
                        assert(out@[w].0 != p.0);
                    }
                }
            }
            out.push((p.0, p.1));
            proof {
                assert forall|kk: int|
                    0 <= kk < out@.len() implies (#[trigger] out@[kk]).1 == readiness_union(
                    prefix.push(p),
                    out@[kk].0,
                ) by {
                    lemma_union_push(prefix, p, out@[kk].0);
                    if kk == out@.len() - 1 {
                        lemma_union_absent(prefix, p.0);
                        lemma_or_comm(p.1, 0);
                        lemma_or_zero_left(p.1);
                    } else {
                        assert(out@[kk] == out0[kk]);
                        assert(out@[kk].0 != p.0);
                        lemma_or_zero_left(readiness_union(prefix, out@[kk].0));
                    }
                }
                assert forall|q: int|
                    0 <= q < i as int + 1 implies has_ident(out@, (#[trigger] raw@[q]).0) by {
                    if q < i as int {
                        let w = choose|w: int|
                            0 <= w < out0.len() && (#[trigger] out0[w]).0 == raw@[q].0;
                        assert(out@[w].0 == raw@[q].0);
                    } else {
                        assert(out@[out@.len() - 1].0 == p.0);
                    }
                }
                assert forall|kk: int|
                    0 <= kk < out@.len() implies has_ident(
                    prefix.push(p),
                    (#[trigger] out@[kk]).0,
                ) by {
                    if kk == out@.len() - 1 {
                        assert(prefix.push(p)[prefix.len() as int].0 == p.0);
                    } else {
                        assert(out@[kk] == out0[kk]);
                        lemma_has_ident_extend(prefix, p, out@[kk].0);
                    }
                }
            }
        }
        i = i + 1;
    }
    proof {
        assert(raw@.subrange(0, n as int) =~= raw@);
    }
    out
}

} // verus!
