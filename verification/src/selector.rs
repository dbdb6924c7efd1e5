//! The readiness backend: an epoll instance behind a verified mask mapping.
//!
//! The two mapping functions are the boundary between the library's
//! readiness model and the kernel's: interests and options become a native
//! event mask, and a native mask becomes an observed readiness set.  Both
//! directions carry exact contracts.

use vstd::prelude::*;

use crate::bits::lemma_or_keeps_mask;
use crate::bits::lemma_self_mask;
use crate::error::MioError;
use crate::error::MioResult;
use crate::event::Interest;
use crate::event::IoEvent;
use crate::event::PollOpt;
use crate::event::INT_ERROR;
use crate::event::INT_HINTED;
use crate::event::INT_HUP;
use crate::event::INT_READABLE;
use crate::event::INT_WRITABLE;
use crate::event::OPT_EDGE;
use crate::event::OPT_LEVEL;
use crate::event::OPT_ONESHOT;
use crate::events::Events;
use crate::registry::kernel_shaped;
use crate::sys;

verus! {

/// Native mask bit: readable.
pub const EP_IN: u32 = 0x001;
/// Native mask bit: writable.
pub const EP_OUT: u32 = 0x004;
/// Native mask bit: error condition.
pub const EP_ERR: u32 = 0x008;
/// Native mask bit: hangup.
pub const EP_HUP: u32 = 0x010;
/// Native mask bit: peer shut down its writing end.
pub const EP_RDHUP: u32 = 0x2000;
/// Native mask bit: oneshot delivery.
pub const EP_ONESHOT: u32 = 0x40000000;
/// Native mask bit: edge-triggered delivery.
pub const EP_ET: u32 = 0x80000000;

/// The native event mask that a registration with interests `interest` and
/// options `opts` subscribes to: the requested directions plus a permanent
/// hangup subscription — hangups are receive-only readiness, delivered
/// whether or not they were asked for — with the native edge and oneshot
/// flags; a level registration clears the edge flag last, as the kernel's
/// default.
pub open spec fn epoll_mask_spec(interest: Interest, opts: PollOpt) -> u32 {
    let a: u32 = if (interest.0 & INT_READABLE) == INT_READABLE {
        EP_IN
    } else {
        0
    };
    let b: u32 = if (interest.0 & INT_WRITABLE) == INT_WRITABLE {
        a | EP_OUT
    } else {
        a
    };
    let c: u32 = b | EP_RDHUP;
    let d: u32 = if (opts.0 & OPT_EDGE) == OPT_EDGE {
        c | EP_ET
    } else {
        c
    };
    let e: u32 = if (opts.0 & OPT_ONESHOT) == OPT_ONESHOT {
        d | EP_ONESHOT
    } else {
        d
    };
    if (opts.0 & OPT_LEVEL) == OPT_LEVEL {
        e & !EP_ET
    } else {
        e
    }
}

/// Map interests and delivery options to the native event mask;
/// see [`epoll_mask_spec`].
pub fn ioevent_to_epoll(interest: Interest, opts: PollOpt) -> (r: u32)
    ensures
        r == epoll_mask_spec(interest, opts),
{
    let a: u32 = if interest.is_readable() {
        EP_IN
    } else {
        0
    };
    let b: u32 = if interest.is_writable() {
        a | EP_OUT
    } else {
        a
    };
    let c: u32 = b | EP_RDHUP;
    let d: u32 = if opts.is_edge() {
        c | EP_ET
    } else {
        c
    };
    let e: u32 = if opts.is_oneshot() {
        d | EP_ONESHOT
    } else {
        d
    };
    if opts.is_level() {
        e & !EP_ET
    } else {
        e
    }
}

/// The readiness set reported for a native event mask: the readable and
/// writable bits map directly, a native error maps to the error condition,
/// either native hangup maps to the hangup condition, and the hint marker
/// records that this backend reports hints.
pub open spec fn epoll_to_interest_spec(mask: u32) -> usize {
    let a: usize = if (mask & EP_IN) == EP_IN {
        INT_HINTED | INT_READABLE
    } else {
        INT_HINTED
    };
    let b: usize = if (mask & EP_OUT) == EP_OUT {
        a | INT_WRITABLE
    } else {
        a
    };
    let c: usize = if (mask & EP_ERR) == EP_ERR {
        b | INT_ERROR
    } else {
        b
    };
    if ((mask & EP_RDHUP) == EP_RDHUP) || ((mask & EP_HUP) == EP_HUP) {
        c | INT_HUP
    } else {
        c
    }
}

/// Map a native event mask to the delivered readiness set;
/// see [`epoll_to_interest_spec`].
pub fn epoll_event_to_interest(mask: u32) -> (r: Interest)
    ensures
        r.0 == epoll_to_interest_spec(mask),
{
    let a: usize = if (mask & EP_IN) == EP_IN {
        INT_HINTED | INT_READABLE
    } else {
        INT_HINTED
    };
    let b: usize = if (mask & EP_OUT) == EP_OUT {
        a | INT_WRITABLE
    } else {
        a
    };
    let c: usize = if (mask & EP_ERR) == EP_ERR {
        b | INT_ERROR
    } else {
        b
    };
    let d: usize = if ((mask & EP_RDHUP) == EP_RDHUP) || ((mask & EP_HUP) == EP_HUP) {
        c | INT_HUP
    } else {
        c
    };
    Interest(d)
}

/// The kernel side of one poller: an epoll instance.
pub struct Selector {
    /// The epoll instance's descriptor.
    pub epfd: i32,
}

impl Selector {
    /// The selector holds a real kernel handle.
    pub open spec fn wf(&self) -> bool {
        self.epfd >= 0
    }

    /// Create a fresh epoll instance.
    pub fn new() -> (r: MioResult<Selector>)
        ensures
            r matches Ok(s) ==> s.wf(),
    {
        match sys::epoll_create() {
            Ok(fd) => Ok(Selector { epfd: fd }),
            Err(code) => Err(crate::error::errno_to_error(code)),
        }
    }

    /// Start watching `fd` under the given interests and options; the
    /// kernel will carry `data` verbatim in every event for it.
    pub fn register(&self, fd: i32, data: u64, interest: Interest, opts: PollOpt) -> (r: MioResult<
        (),
    >) {
        let mask = ioevent_to_epoll(interest, opts);
        match sys::epoll_add(self.epfd, fd, mask, data) {
            Ok(()) => Ok(()),
            Err(code) => Err(crate::error::errno_to_error(code)),
        }
    }

    /// Replace the interests, options and data of a watched descriptor.
    pub fn reregister(&self, fd: i32, data: u64, interest: Interest, opts: PollOpt) -> (r:
        MioResult<()>) {
        let mask = ioevent_to_epoll(interest, opts);
        match sys::epoll_mod(self.epfd, fd, mask, data) {
            Ok(()) => Ok(()),
            Err(code) => Err(crate::error::errno_to_error(code)),
        }
    }

    /// Stop watching a descriptor.
    pub fn deregister(&self, fd: i32) -> (r: MioResult<()>) {
        match sys::epoll_del(self.epfd, fd) {
            Ok(()) => Ok(()),
            Err(code) => Err(crate::error::errno_to_error(code)),
        }
    }

    /// Wait for native events: at most `max` of them, for at most
    /// `timeout_ms` milliseconds (`None`: indefinitely).  An interrupted
    /// wait reports zero events rather than an error.
    pub fn fetch(&self, max: usize, timeout_ms: Option<u32>) -> (r: MioResult<Vec<(u64, u32)>>)
        ensures
            r matches Ok(v) ==> v@.len() <= max,
    {
        let t: isize = match timeout_ms {
            None => -1,
            Some(ms) => if ms > 0x7fff_ffff {
                0x7fff_ffff
            } else {
                ms as isize
            },
        };
        match sys::epoll_fetch(self.epfd, max, t) {
            Ok(v) => Ok(v),
            Err(code) => {
                let e = crate::error::errno_to_error(code);
                match e {
                    MioError::Interrupted => Ok(Vec::new()),
                    _ => Err(e),
                }
            },
        }
    }

    /// Wait for native events and overwrite `events` with their
    /// converted form: at most the batch's capacity of them, each the
    /// readiness conversion of one kernel report with the registration's
    /// user data as its token.  An interrupted wait reports zero events
    /// rather than an error.
    pub fn select(&self, events: &mut Events, timeout_ms: Option<u32>) -> (r: MioResult<usize>)
        ensures
            final(events).capacity_spec() == old(events).capacity_spec(),
            final(events)@.len() <= final(events).capacity_spec(),
            r matches Ok(n) ==> n == final(events)@.len(),
            r is Err ==> final(events)@.len() == 0,
            forall|k: int|
                0 <= k < final(events)@.len() ==> kernel_shaped(#[trigger] final(events)@[k]),
    {
        events.clear();
        let cap = events.capacity();
        if cap == 0 {
            return Ok(0);
        }
        let raw = match self.fetch(cap, timeout_ms) {
            Ok(v) => v,
            Err(e) => {
                return Err(e);
            },
        };
        let nraw = raw.len();
        let mut i: usize = 0;
        while i < nraw
            invariant
                nraw == raw@.len(),
                raw@.len() <= cap,
                cap == events.capacity_spec(),
                i <= nraw,
                events@.len() <= i,
                forall|k: int| 0 <= k < events@.len() ==> kernel_shaped(#[trigger] events@[k]),
            decreases nraw - i,
        {
            let p: (u64, u32) = raw[i];
            let kind = epoll_event_to_interest(p.1);
            let tok: usize = #[verifier::truncate] (p.0 as usize);
            proof {
                lemma_epoll_interest_hinted(p.1);
            }
            events.push(IoEvent::new(kind, tok));
            i = i + 1;
        }
        Ok(events.len())
    }

    /// Release the kernel handle.
    pub fn close(&mut self) {
        let _ = sys::close_fd(self.epfd);
        self.epfd = -1;
    }
}

/// The epoll conversion always sets the hint marker.
pub(crate) proof fn lemma_epoll_interest_hinted(mask: u32)
    ensures
        (epoll_to_interest_spec(mask) & INT_HINTED) == INT_HINTED,
{
    lemma_self_mask(INT_HINTED);
    lemma_or_keeps_mask(INT_HINTED, INT_READABLE, INT_HINTED);
    let a: usize = if (mask & EP_IN) == EP_IN {
        INT_HINTED | INT_READABLE
    } else {
        INT_HINTED
    };
    lemma_or_keeps_mask(a, INT_WRITABLE, INT_HINTED);
    let b: usize = if (mask & EP_OUT) == EP_OUT {
        a | INT_WRITABLE
    } else {
        a
    };
    lemma_or_keeps_mask(b, INT_ERROR, INT_HINTED);
    let c: usize = if (mask & EP_ERR) == EP_ERR {
        b | INT_ERROR
    } else {
        b
    };
    lemma_or_keeps_mask(c, INT_HUP, INT_HINTED);
}

} // verus!
