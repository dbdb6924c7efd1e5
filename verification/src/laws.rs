//! The delivery guarantees of the library, stated as theorems.
//!
//! Each law is proved over the spec-level delivery machine that
//! [`crate::poll::Poll::poll`]'s contract is written in: the registration
//! table predicates and the custom drain decision
//! [`crate::registry::drain_step_spec`].  Together with the exact
//! contracts of the registration operations, they pin down token fidelity,
//! silence after deregistration, and the edge, level and oneshot
//! semantics.

use vstd::prelude::*;

use crate::bits::lemma_zero_and;
use crate::event::Interest;
use crate::event::IoEvent;
use crate::event::PollOpt;
use crate::event::OPT_LEVEL;
use crate::event::OPT_ONESHOT;
use crate::registry::custom_delivery_of;
use crate::registry::drain_step_spec;
use crate::registry::has_id;
use crate::registry::ids_unique;
use crate::registry::Registration;

verus! {

/// Token fidelity: in a table with one entry per source, every delivered
/// event for the source `id` carries the token of that source's entry
/// exactly.  Since `reregister` replaces the stored token, all subsequent
/// deliveries carry the new token.
pub proof fn lemma_token_fidelity(t: Seq<Registration>, e: IoEvent, id: usize, i: int)
    requires
        ids_unique(t),
        0 <= i < t.len(),
        t[i].id == id,
        custom_delivery_of(t, e, id),
    ensures
        e.token.0 == t[i].token,
{
    let k = choose|k: int|
        0 <= k < t.len() && (#[trigger] t[k]).id == id && t[k].is_custom() && t[k].armed
            && e.token.0 == t[k].token && (e.kind.0 & t[k].interest.0) != 0 && (e.kind.0 & !(
        t[k].interest.0 | (crate::event::INT_ERROR | crate::event::INT_HUP))) == 0;
    assert(k == i);
}

/// Silence after deregistration: a table without an entry for the source
/// `id` delivers no event for it.  After `deregister` returns `Ok`, the
/// entry is gone, so the following poll delivers nothing for that source.
pub proof fn lemma_no_event_after_deregister(t: Seq<Registration>, e: IoEvent, id: usize)
    requires
        !has_id(t, id),
    ensures
        !custom_delivery_of(t, e, id),
{
    if custom_delivery_of(t, e, id) {
        let k = choose|k: int|
            0 <= k < t.len() && (#[trigger] t[k]).id == id && t[k].is_custom() && t[k].armed
                && e.token.0 == t[k].token && (e.kind.0 & t[k].interest.0) != 0 && (e.kind.0 & !(
            t[k].interest.0 | (crate::event::INT_ERROR | crate::event::INT_HUP))) == 0;
        assert(has_id(t, id));
    }
}

/// Oneshot exhaustion: a delivery under the oneshot option disarms the
/// registration, and a disarmed registration delivers nothing, whatever
/// readiness is published, until `reregister` rearms it.
pub proof fn lemma_oneshot_exhaustion(interest: Interest, opts: PollOpt, bits: usize, bits2: usize)
    requires
        (opts.0 & OPT_ONESHOT) == OPT_ONESHOT,
        drain_step_spec(interest, opts, true, bits).deliver is Some,
    ensures
        !drain_step_spec(interest, opts, true, bits).armed,
        drain_step_spec(interest, opts, false, bits2).deliver is None,
{
}

/// Edge non-duplication: an edge-triggered delivery consumes the pending
/// readiness, and with nothing newly published the next drain delivers
/// nothing — one readiness transition yields exactly one event.
pub proof fn lemma_edge_non_duplication(interest: Interest, opts: PollOpt, armed: bool, bits: usize)
    requires
        (opts.0 & OPT_LEVEL) != OPT_LEVEL,
        drain_step_spec(interest, opts, armed, bits).deliver is Some,
    ensures
        drain_step_spec(interest, opts, armed, bits).keep == 0,
        forall|armed2: bool|
            drain_step_spec(interest, opts, armed2, 0).deliver is None,
{
    lemma_zero_and(interest.0);
}

/// Level persistence: a level-triggered registration that delivers keeps
/// its pending readiness and stays armed, so every following drain — that
/// is, every following poll with spare capacity — delivers the same event
/// again until the publisher clears its readiness.
pub proof fn lemma_level_persistence(interest: Interest, opts: PollOpt, bits: usize)
    requires
        (opts.0 & OPT_LEVEL) == OPT_LEVEL,
        (opts.0 & OPT_ONESHOT) != OPT_ONESHOT,
        drain_step_spec(interest, opts, true, bits).deliver is Some,
    ensures
        drain_step_spec(interest, opts, true, bits).armed,
        drain_step_spec(interest, opts, true, bits).keep == bits,
        drain_step_spec(
            interest,
            opts,
            true,
            drain_step_spec(interest, opts, true, bits).keep,
        ).deliver == drain_step_spec(interest, opts, true, bits).deliver,
{
}

} // verus!
