//! The per-poller registration table and the delivery state machine.
//!
//! A registration binds a source identity to the caller's token, interests
//! and delivery options.  The table is the poller's single source of truth:
//! every delivered event is derived from an entry of this table, so the
//! delivery guarantees of the library are stated and proved here.

use vstd::prelude::*;

use crate::custom::ReadyWord;
use crate::event::Interest;
use crate::event::IoEvent;
use crate::event::PollOpt;
use crate::event::INT_ERROR;
use crate::event::INT_HINTED;
use crate::event::INT_HUP;
use crate::event::OPT_LEVEL;
use crate::event::OPT_ONESHOT;

verus! {

/// One entry of the registration table.
pub struct Registration {
    /// Source identity: the kernel handle for kernel sources, a serial
    /// number of this poller for custom sources.
    pub id: usize,
    /// The caller-chosen token carried into every event for this entry.
    pub token: usize,
    /// The readiness kinds the caller asked to be notified about.
    pub interest: Interest,
    /// The delivery policy.
    pub opts: PollOpt,
    /// Cleared when a oneshot registration has delivered its event;
    /// restored by `reregister`.
    pub armed: bool,
    /// The shared readiness word of a custom source; `None` for sources
    /// the kernel watches directly.
    pub word: Option<ReadyWord>,
}

impl Registration {
    /// Whether this entry describes a user-owned custom source.
    pub open spec fn is_custom(&self) -> bool {
        self.word is Some
    }
}

/// No two entries name the same source.
pub open spec fn ids_unique(s: Seq<Registration>) -> bool {
    forall|i: int, j: int| 0 <= i < j < s.len() ==> s[i].id != s[j].id
}

/// Whether some entry of `s` names the source `id`.
pub open spec fn has_id(s: Seq<Registration>, id: usize) -> bool {
    exists|i: int| 0 <= i < s.len() && s[i].id == id
}

/// The registration table of one poller.
pub struct RegTable {
    /// The entries, in registration order.
    pub regs: Vec<Registration>,
}

impl RegTable {
    /// The table's well-formedness: each source has at most one entry.
    pub open spec fn wf(&self) -> bool {
        ids_unique(self.regs@)
    }

    /// An empty table.
    pub fn new() -> (r: RegTable)
        ensures
            r.regs@ =~= Seq::<Registration>::empty(),
            r.wf(),
    {
        RegTable { regs: Vec::new() }
    }

    /// The position of the entry for source `id`, if one exists.
    pub fn position(&self, id: usize) -> (r: Option<usize>)
        ensures
            match r {
                Some(i) => i < self.regs@.len() && self.regs@[i as int].id == id,
                None => !has_id(self.regs@, id),
            },
    {
        let mut i: usize = 0;
        while i < self.regs.len()
            invariant
                i <= self.regs@.len(),
                forall|j: int| 0 <= j < i ==> self.regs@[j].id != id,
            decreases self.regs@.len() - i,
        {
            if self.regs[i].id == id {
                return Some(i);
            }
            i = i + 1;
        }
        None
    }

    /// Append an entry for a source the table does not know yet.
    pub fn insert(&mut self, reg: Registration)
        requires
            old(self).wf(),
            !has_id(old(self).regs@, reg.id),
        ensures
            final(self).regs@ =~= old(self).regs@.push(reg),
            final(self).wf(),
    {
        self.regs.push(reg);
        assert forall|i: int, j: int|
            0 <= i < j < self.regs@.len() implies self.regs@[i].id != self.regs@[j].id by {
            if j + 1 == self.regs@.len() {
                assert(self.regs@[i] == old(self).regs@[i]);
            }
        }
    }

    /// Remove the entry at position `i`.
    pub fn remove(&mut self, i: usize)
        requires
            old(self).wf(),
            i < old(self).regs@.len(),
        ensures
            final(self).regs@ =~= old(self).regs@.remove(i as int),
            final(self).wf(),
    {
        self.regs.remove(i);
    }

    /// The number of entries.
    pub fn len(&self) -> (r: usize)
        ensures
            r == self.regs@.len(),
    {
        self.regs.len()
    }

    /// A view of the entry at position `i`.
    pub fn entry(&self, i: usize) -> (r: &Registration)
        requires
            i < self.regs@.len(),
        ensures
            *r == self.regs@[i as int],
    {
        &self.regs[i]
    }

    /// Rebind the entry at position `i`: new token, interests and options,
    /// and rearm it; its identity and kind stay.
    pub fn set_entry(&mut self, i: usize, token: usize, interest: Interest, opts: PollOpt)
        requires
            old(self).wf(),
            i < old(self).regs@.len(),
        ensures
            final(self).regs@.len() == old(self).regs@.len(),
            final(self).regs@[i as int].id == old(self).regs@[i as int].id,
            final(self).regs@[i as int].token == token,
            final(self).regs@[i as int].interest == interest,
            final(self).regs@[i as int].opts == opts,
            final(self).regs@[i as int].armed,
            final(self).regs@[i as int].word == old(self).regs@[i as int].word,
            forall|j: int|
                0 <= j < old(self).regs@.len() && j != i ==> final(self).regs@[j] == old(
                    self,
                ).regs@[j],
            final(self).wf(),
    {
        let r = &mut self.regs[i];
        r.token = token;
        r.interest = interest;
        r.opts = opts;
        r.armed = true;
        assert forall|p: int, q: int|
            0 <= p < q < self.regs@.len() implies self.regs@[p].id != self.regs@[q].id by {
            assert(old(self).regs@[p].id != old(self).regs@[q].id);
        }
    }

    /// Disarm the entry at position `i`; every other field stays.
    pub fn disarm(&mut self, i: usize)
        requires
            old(self).wf(),
            i < old(self).regs@.len(),
        ensures
            final(self).regs@.len() == old(self).regs@.len(),
            final(self).regs@[i as int] == (Registration {
                armed: false,
                ..old(self).regs@[i as int]
            }),
            forall|j: int|
                0 <= j < old(self).regs@.len() && j != i ==> final(self).regs@[j] == old(
                    self,
                ).regs@[j],
            final(self).wf(),
    {
        let r = &mut self.regs[i];
        r.armed = false;
        assert forall|p: int, q: int|
            0 <= p < q < self.regs@.len() implies self.regs@[p].id != self.regs@[q].id by {
            assert(old(self).regs@[p].id != old(self).regs@[q].id);
        }
    }
}

/// What one drain of a source's pending readiness decides.
pub struct DrainOutcome {
    /// The readiness to deliver, if any.
    pub deliver: Option<Interest>,
    /// Whether the registration stays armed.
    pub armed: bool,
    /// The readiness bits that remain pending after the drain.
    pub keep: usize,
}

/// The readiness actually delivered for pending bits `bits` under the
/// interests `interest`: the pending kinds that were asked for, plus the
/// unsolicited error and hangup conditions.
pub open spec fn effective_spec(interest: usize, bits: usize) -> usize {
    bits & (interest | (INT_ERROR | INT_HUP))
}

/// Whether pending bits `bits` fire an event under the interests `interest`.
pub open spec fn fires_spec(interest: usize, bits: usize) -> bool {
    (bits & interest) != 0
}

/// The delivery decision for one registration with pending readiness `bits`.
///
/// A disarmed registration delivers nothing and keeps its pending bits, so
/// that a later `reregister` can observe them.  A firing delivery disarms a
/// oneshot registration; an edge registration consumes the pending bits
/// while a level registration retains them and so keeps firing until the
/// publisher clears its readiness.
pub open spec fn drain_step_spec(
    interest: Interest,
    opts: PollOpt,
    armed: bool,
    bits: usize,
) -> DrainOutcome {
    if !armed || !fires_spec(interest.0, bits) {
        (DrainOutcome { deliver: None, armed, keep: bits })
    } else {
        (DrainOutcome {
            deliver: Some(Interest(effective_spec(interest.0, bits))),
            armed: (opts.0 & OPT_ONESHOT) != OPT_ONESHOT,
            keep: if (opts.0 & OPT_LEVEL) == OPT_LEVEL {
                bits
            } else {
                0
            },
        })
    }
}

/// How one entry may change across a poll: identity, token, interests,
/// options and kind are untouched; a registration may only be disarmed,
/// never armed.
pub open spec fn same_entry_shape(a: Registration, b: Registration) -> bool {
    &&& b.id == a.id
    &&& b.token == a.token
    &&& b.interest == a.interest
    &&& b.opts == a.opts
    &&& (b.is_custom() <==> a.is_custom())
    &&& (b.armed ==> a.armed)
}

/// How a table may change across a poll: entry for entry, as
/// [`same_entry_shape`] says.
pub open spec fn table_shape_preserved(a: Seq<Registration>, b: Seq<Registration>) -> bool {
    &&& b.len() == a.len()
    &&& forall|j: int| 0 <= j < a.len() ==> same_entry_shape(a[j], #[trigger] b[j])
}

/// Whether `e` has the shape of an event the kernel backend reported: the
/// epoll conversion always sets the hint marker.
pub open spec fn kernel_shaped(e: IoEvent) -> bool {
    (e.kind.0 & INT_HINTED) == INT_HINTED
}

/// Whether `e` is a delivery from the custom source `id` under table `t`:
/// some armed custom entry for `id` exists whose token the event carries
/// verbatim, whose interests the delivered readiness meets, and outside
/// whose interests (plus the unsolicited error and hangup conditions) the
/// delivered readiness holds nothing.
pub open spec fn custom_delivery_of(t: Seq<Registration>, e: IoEvent, id: usize) -> bool {
    exists|i: int|
        0 <= i < t.len() && (#[trigger] t[i]).id == id && t[i].is_custom() && t[i].armed
            && e.token.0 == t[i].token && (e.kind.0 & t[i].interest.0) != 0 && (e.kind.0 & !(
        t[i].interest.0 | (INT_ERROR | INT_HUP))) == 0
}

/// Every delivered event is accounted for: it is either a kernel report or
/// a delivery from some registered custom source.
pub open spec fn event_accounted(t: Seq<Registration>, e: IoEvent) -> bool {
    kernel_shaped(e) || exists|id: usize| custom_delivery_of(t, e, id)
}

/// Whether `e` is exactly a delivery of the entry `reg`: the entry is an
/// armed custom source, the event carries its token verbatim, meets its
/// interests, and holds nothing outside them plus the unsolicited error
/// and hangup conditions.
pub open spec fn delivery_of_entry(reg: Registration, e: IoEvent) -> bool {
    &&& reg.is_custom()
    &&& reg.armed
    &&& e.token.0 == reg.token
    &&& (e.kind.0 & reg.interest.0) != 0
    &&& (e.kind.0 & !(reg.interest.0 | (INT_ERROR | INT_HUP))) == 0
}

/// Whether the ledger `src` records a delivery from table position `j`.
pub open spec fn delivered_in(src: Seq<int>, j: int) -> bool {
    exists|p: int| 0 <= p < src.len() && src[p] == j
}

/// A delivery ledger for one poll.  `src` assigns every batch position
/// either to the kernel (a negative mark) or to the table entry it was
/// drained from; each custom entry is drained at most once; and the
/// final armed states follow the ledger exactly — an entry ends disarmed
/// precisely when it was armed, carries the oneshot option, and the
/// ledger shows its delivery.
pub open spec fn delivery_ledger(
    a: Seq<Registration>,
    b: Seq<Registration>,
    evs: Seq<IoEvent>,
    src: Seq<int>,
) -> bool {
    &&& src.len() == evs.len()
    &&& forall|p: int| 0 <= p < src.len() && (#[trigger] src[p]) < 0 ==> kernel_shaped(evs[p])
    &&& forall|p: int|
        0 <= p < src.len() && (#[trigger] src[p]) >= 0 ==> src[p] < a.len() && delivery_of_entry(
            a[src[p]],
            evs[p],
        )
    &&& forall|p: int, q: int|
        0 <= p < q < src.len() && (#[trigger] src[p]) >= 0 ==> src[p] != (#[trigger] src[q])
    &&& forall|j: int|
        0 <= j < a.len() && j < b.len() ==> ((#[trigger] b[j]).armed <==> (a[j].armed && !((
        a[j].opts.0 & OPT_ONESHOT) == OPT_ONESHOT && delivered_in(src, j))))
}

/// The ledger over a batch extended by one entry.
pub proof fn lemma_delivered_push(src: Seq<int>, v: int, j: int)
    ensures
        delivered_in(src.push(v), j) == (delivered_in(src, j) || v == j),
{
    if delivered_in(src.push(v), j) {
        let p = choose|p: int| 0 <= p < src.push(v).len() && src.push(v)[p] == j;
        if p < src.len() {
            assert(src[p] == j);
        }
    }
    if delivered_in(src, j) {
        let p = choose|p: int| 0 <= p < src.len() && src[p] == j;
        assert(src.push(v)[p] == j);
    }
    if v == j {
        assert(src.push(v)[src.len() as int] == j);
    }
}

/// Disarming is never silent: every entry that goes from armed in `a` to
/// disarmed in `b` has an event carrying its token in the batch `evs` —
/// the one delivery its oneshot option paid for.
pub open spec fn disarm_implies_event(
    a: Seq<Registration>,
    b: Seq<Registration>,
    evs: Seq<IoEvent>,
) -> bool {
    forall|j: int|
        0 <= j < a.len() && j < b.len() && a[j].armed && !(#[trigger] b[j]).armed ==> exists|k: int|
            0 <= k < evs.len() && (#[trigger] evs[k]).token.0 == a[j].token
}

/// Decide what to deliver for one registration with pending readiness
/// `bits`; see [`drain_step_spec`].
pub fn drain_step(interest: Interest, opts: PollOpt, armed: bool, bits: usize) -> (r: DrainOutcome)
    ensures
        r == drain_step_spec(interest, opts, armed, bits),
{
    if !armed || (bits & interest.0) == 0 {
        DrainOutcome { deliver: None, armed, keep: bits }
    } else {
        DrainOutcome {
            deliver: Some(Interest(bits & (interest.0 | (INT_ERROR | INT_HUP)))),
            armed: (opts.0 & OPT_ONESHOT) != OPT_ONESHOT,
            keep: if (opts.0 & OPT_LEVEL) == OPT_LEVEL {
                bits
            } else {
                0
            },
        }
    }
}

} // verus!
