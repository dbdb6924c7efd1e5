//! A bounded, reusable batch of delivered events.

use vstd::prelude::*;

use crate::event::IoEvent;

verus! {

/// An ordered event batch with a fixed capacity chosen at construction.
///
/// The poller fills the batch up to its capacity on every wait and truncates
/// it to the number of events actually observed; the container is reused
/// across waits and overwritten in place.
#[derive(Debug)]
pub struct Events {
    items: Vec<IoEvent>,
    cap: usize,
}

impl Events {
    /// The batch as the sequence of events delivered by the last wait.
    pub closed spec fn view(&self) -> Seq<IoEvent> {
        self.items@
    }

    /// The fixed capacity chosen at construction.
    pub closed spec fn capacity_spec(&self) -> usize {
        self.cap
    }

    /// The batch never outgrows its capacity.
    pub open spec fn wf(&self) -> bool {
        self@.len() <= self.capacity_spec()
    }

    /// An empty batch able to hold up to `capacity` events per wait.
    pub fn with_capacity(capacity: usize) -> (r: Events)
        ensures
            r@ =~= Seq::<IoEvent>::empty(),
            r.capacity_spec() == capacity,
            r.wf(),
    {
        Events { items: Vec::new(), cap: capacity }
    }

    /// The number of events delivered by the last wait.
    pub fn len(&self) -> (r: usize)
        ensures
            r == self@.len(),
    {
        self.items.len()
    }

    /// Whether the last wait delivered no events.
    pub fn is_empty(&self) -> (r: bool)
        ensures
            r == (self@.len() == 0),
    {
        self.items.len() == 0
    }

    /// The capacity chosen at construction.
    pub fn capacity(&self) -> (r: usize)
        ensures
            r == self.capacity_spec(),
    {
        self.cap
    }

    /// The event at position `idx` of the batch.
    pub fn get(&self, idx: usize) -> (r: IoEvent)
        requires
            idx < self@.len(),
        ensures
            r == self@[idx as int],
    {
        self.items[idx]
    }

    /// Empty the batch, keeping its capacity.
    pub fn clear(&mut self)
        ensures
            final(self)@ =~= Seq::<IoEvent>::empty(),
            final(self).capacity_spec() == old(self).capacity_spec(),
            final(self).wf(),
    {
        self.items.clear();
    }

    /// Append one event; callers stay within the capacity.
    pub(crate) fn push(&mut self, e: IoEvent)
        requires
            old(self)@.len() < old(self).capacity_spec(),
        ensures
            final(self)@ =~= old(self)@.push(e),
            final(self).capacity_spec() == old(self).capacity_spec(),
            old(self).wf() ==> final(self).wf(),
    {
        self.items.push(e);
    }
}

} // verus!
