//! User-owned readiness sources.
//!
//! [`CustomRegistration::new`] produces two handles over one shared atomic
//! readiness word: the registration handle, which is registered with a
//! poller like any other source, and a [`SetReadiness`] handle, which may be
//! cloned, moved to other threads, and used to publish readiness into the
//! poller at any time — before or after registration.
//!
//! The word is a plain machine-word atomic shared between threads, so
//! nothing deterministic can be stated about a single load or store; every
//! delivery decision taken on a value read from it is made by the verified
//! [`crate::registry::drain_step`], which is proved correct for every value
//! the word could hold.

use vstd::prelude::*;

use std::sync::atomic::AtomicUsize;
use std::sync::atomic::Ordering;
use std::sync::Arc;

use crate::error::MioError;
use crate::error::MioResult;
use crate::event::Interest;
use crate::sys;

verus! {

/// A shared readiness word: the pending readiness bits of one custom
/// source, plus the wake handle of the poller it is bound to (stored as
/// `fd + 1`, with `0` meaning unbound).
#[derive(Clone)]
pub struct ReadyWord {
    bits: Arc<AtomicUsize>,
    wake: Arc<AtomicUsize>,
}

impl ReadyWord {
    /// A fresh word: no pending readiness, bound to no poller.
    pub(crate) fn new() -> ReadyWord {
        ReadyWord { bits: Arc::new(AtomicUsize::new(0)), wake: Arc::new(AtomicUsize::new(0)) }
    }

    /// Publish readiness: OR the bits into the word.
    pub(crate) fn publish(&self, bits: usize) {
        self.bits.fetch_or(bits, Ordering::AcqRel);
    }

    /// Atomically take every pending bit, leaving the word quiescent.
    pub(crate) fn take(&self) -> usize {
        self.bits.swap(0, Ordering::AcqRel)
    }

    /// The pending bits at this instant.
    pub(crate) fn peek(&self) -> usize {
        self.bits.load(Ordering::Acquire)
    }

    /// Bind the word to a poller's wake handle, or unbind with a negative
    /// handle.
    pub(crate) fn bind_wake(&self, fd: i32) {
        if fd >= 0 {
            self.wake.store((fd as usize) + 1, Ordering::Release);
        } else {
            self.wake.store(0, Ordering::Release);
        }
    }

    /// The bound wake handle, if any.
    pub(crate) fn wake_handle(&self) -> Option<i32> {
        let w: usize = self.wake.load(Ordering::Acquire);
        if w == 0 || w > 0x8000_0000 {
            None
        } else {
            Some((w - 1) as i32)
        }
    }
}

/// Where a custom source is registered: the poller's kernel handle and the
/// serial number of the table entry.
#[derive(Copy, Clone, PartialEq, Eq, Structural, Debug)]
pub struct Bound {
    /// The kernel handle identifying the poller.
    pub epfd: i32,
    /// The source identity inside that poller's table.
    pub id: usize,
}

/// The registration handle of a user-owned readiness source.
pub struct CustomRegistration {
    pub(crate) word: ReadyWord,
    pub(crate) bound: Option<Bound>,
}

/// The publishing handle of a user-owned readiness source.
#[derive(Clone)]
pub struct SetReadiness {
    word: ReadyWord,
}

impl CustomRegistration {
    /// Where this source is registered, if anywhere.
    pub closed spec fn bound_spec(&self) -> Option<Bound> {
        self.bound
    }

    /// Where this source is registered, if anywhere.
    pub fn bound(&self) -> (r: Option<Bound>)
        ensures
            r == self.bound_spec(),
    {
        self.bound
    }

    /// Record where the source is registered.
    pub(crate) fn set_bound(&mut self, b: Option<Bound>)
        ensures
            final(self).bound_spec() == b,
    {
        self.bound = b;
    }

    /// Produce the two handles of a fresh custom source.
    ///
    /// The source is not yet registered with any poller; readiness published
    /// through the second handle is retained and observed by the first poll
    /// that follows a later registration.
    pub fn new() -> (r: (CustomRegistration, SetReadiness))
        ensures
            r.0.bound_spec() is None,
    {
        let word = ReadyWord::new();
        let publisher = SetReadiness { word: word.clone() };
        (CustomRegistration { word, bound: None }, publisher)
    }
}

impl SetReadiness {
    /// Publish readiness for the source.
    ///
    /// The bits are OR-ed into the shared word; if the source is registered,
    /// the poller is woken so that a blocked poll observes the publication.
    /// The call succeeds whether or not the source is registered; waking a
    /// poller whose wake counter is saturated is still a success, since the
    /// pending wake already guarantees a wakeup.
    pub fn set_readiness(&self, ready: Interest) -> (r: MioResult<()>)
        ensures
            r matches Err(e) ==> e != MioError::WouldBlock,
    {
        self.word.publish(ready.bits());
        match self.word.wake_handle() {
            None => Ok(()),
            Some(fd) => {
                match sys::eventfd_write(fd) {
                    Ok(()) => Ok(()),
                    Err(code) => {
                        let e = crate::error::errno_to_error(code);
                        if e.is_would_block() {
                            Ok(())
                        } else {
                            Err(e)
                        }
                    },
                }
            },
        }
    }

    /// The readiness bits pending at this instant.
    ///
    /// The value is a snapshot: other threads may publish concurrently.
    pub fn readiness(&self) -> Interest {
        Interest(self.word.peek())
    }
}

} // verus!
