//! Delivery options, interest sets, readiness sets and raw events.
//!
//! All three set types are thin wrappers over a machine word of flag bits.
//! Their contracts state the exact bit arithmetic, so that the registration
//! state machine in [`crate::poll`] can reason about membership precisely.

use vstd::prelude::*;

use crate::token::Token;

verus! {

/// Bit for edge-triggered delivery.
pub const OPT_EDGE: usize = 0x020;
/// Bit for level-triggered delivery.
pub const OPT_LEVEL: usize = 0x040;
/// Bit for oneshot delivery: disarm after a single event.
pub const OPT_ONESHOT: usize = 0x080;

/// Delivery policy attached to a registration: edge or level triggering,
/// optionally composed with oneshot.
#[derive(Copy, Clone, Debug, PartialEq, Eq, Structural, Hash, PartialOrd, Ord)]
pub struct PollOpt(pub usize);

impl PollOpt {
    /// The edge-triggered policy.
    pub fn edge() -> (r: PollOpt)
        ensures
            r.0 == OPT_EDGE,
    {
        PollOpt(OPT_EDGE)
    }

    /// No policy bits at all.
    pub fn empty() -> (r: PollOpt)
        ensures
            r.0 == 0,
    {
        PollOpt(0)
    }

    /// The level-triggered policy.
    pub fn level() -> (r: PollOpt)
        ensures
            r.0 == OPT_LEVEL,
    {
        PollOpt(OPT_LEVEL)
    }

    /// The oneshot modifier.
    pub fn oneshot() -> (r: PollOpt)
        ensures
            r.0 == OPT_ONESHOT,
    {
        PollOpt(OPT_ONESHOT)
    }

    /// Every policy bit at once.
    pub fn all() -> (r: PollOpt)
        ensures
            r.0 == (OPT_EDGE | OPT_LEVEL | OPT_ONESHOT),
    {
        PollOpt(OPT_EDGE | OPT_LEVEL | OPT_ONESHOT)
    }

    /// Whether the edge bit is set.
    pub fn is_edge(&self) -> (r: bool)
        ensures
            r == ((self.0 & OPT_EDGE) == OPT_EDGE),
    {
        self.contains(PollOpt::edge())
    }

    /// Whether the level bit is set.
    pub fn is_level(&self) -> (r: bool)
        ensures
            r == ((self.0 & OPT_LEVEL) == OPT_LEVEL),
    {
        self.contains(PollOpt::level())
    }

    /// Whether the oneshot bit is set.
    pub fn is_oneshot(&self) -> (r: bool)
        ensures
            r == ((self.0 & OPT_ONESHOT) == OPT_ONESHOT),
    {
        self.contains(PollOpt::oneshot())
    }

    /// The raw bits.
    pub fn bits(&self) -> (r: usize)
        ensures
            r == self.0,
    {
        self.0
    }

    /// Whether every bit of `other` is also set in `self`.
    pub fn contains(&self, other: PollOpt) -> (r: bool)
        ensures
            r == ((self.0 & other.0) == other.0),
    {
        (self.0 & other.0) == other.0
    }

    /// Set every bit of `other`.
    pub fn insert(&mut self, other: PollOpt)
        ensures
            final(self).0 == (old(self).0 | other.0),
    {
        self.0 = self.0 | other.0;
    }

    /// Clear every bit of `other`.
    pub fn remove(&mut self, other: PollOpt)
        ensures
            final(self).0 == (old(self).0 & !other.0),
    {
        self.0 = self.0 & !other.0;
    }

    /// The union of the two policies.
    pub fn union(self, other: PollOpt) -> (r: PollOpt)
        ensures
            r.0 == (self.0 | other.0),
    {
        PollOpt(self.0 | other.0)
    }
}

/// Bit for read readiness.
pub const INT_READABLE: usize = 0x001;
/// Bit for write readiness.
pub const INT_WRITABLE: usize = 0x002;
/// Bit for a per-source error condition.
pub const INT_ERROR: usize = 0x004;
/// Bit for a hangup by the peer.
pub const INT_HUP: usize = 0x008;
/// Bit recording that the producing backend reports hints at all.
pub const INT_HINTED: usize = 0x010;

/// A set of readiness kinds.
///
/// The same type serves both as the interests a caller registers (where only
/// the readable and writable bits are meaningful requests) and as the
/// readiness observed in a delivered event (where error and hangup may appear
/// unsolicited).
#[derive(Copy, Clone, Debug, PartialEq, Eq, Structural, Hash, PartialOrd, Ord)]
pub struct Interest(pub usize);

impl Interest {
    /// The empty set.
    pub fn none() -> (r: Interest)
        ensures
            r.0 == 0,
    {
        Interest(0)
    }

    /// The set holding only read readiness.
    pub fn readable() -> (r: Interest)
        ensures
            r.0 == INT_READABLE,
    {
        Interest(INT_READABLE)
    }

    /// The set holding only write readiness.
    pub fn writable() -> (r: Interest)
        ensures
            r.0 == INT_WRITABLE,
    {
        Interest(INT_WRITABLE)
    }

    /// The set holding only the error condition.
    pub fn error() -> (r: Interest)
        ensures
            r.0 == INT_ERROR,
    {
        Interest(INT_ERROR)
    }

    /// The set holding only the hangup condition.
    pub fn hup() -> (r: Interest)
        ensures
            r.0 == INT_HUP,
    {
        Interest(INT_HUP)
    }

    /// The set holding only the hint marker.
    pub fn hinted() -> (r: Interest)
        ensures
            r.0 == INT_HINTED,
    {
        Interest(INT_HINTED)
    }

    /// Readable, writable, hangup and error at once.
    pub fn all() -> (r: Interest)
        ensures
            r.0 == (INT_READABLE | INT_WRITABLE | INT_HUP | INT_ERROR),
    {
        Interest(INT_READABLE | INT_WRITABLE | INT_HUP | INT_ERROR)
    }

    /// Whether the readable bit is set.
    pub fn is_readable(&self) -> (r: bool)
        ensures
            r == ((self.0 & INT_READABLE) == INT_READABLE),
    {
        self.contains(Interest::readable())
    }

    /// Whether the writable bit is set.
    pub fn is_writable(&self) -> (r: bool)
        ensures
            r == ((self.0 & INT_WRITABLE) == INT_WRITABLE),
    {
        self.contains(Interest::writable())
    }

    /// Whether the error bit is set.
    pub fn is_error(&self) -> (r: bool)
        ensures
            r == ((self.0 & INT_ERROR) == INT_ERROR),
    {
        self.contains(Interest::error())
    }

    /// Whether the hangup bit is set.
    pub fn is_hup(&self) -> (r: bool)
        ensures
            r == ((self.0 & INT_HUP) == INT_HUP),
    {
        self.contains(Interest::hup())
    }

    /// Whether the hint marker is set.
    pub fn is_hinted(&self) -> (r: bool)
        ensures
            r == ((self.0 & INT_HINTED) == INT_HINTED),
    {
        self.contains(Interest::hinted())
    }

    /// Set every bit of `other`.
    pub fn insert(&mut self, other: Interest)
        ensures
            final(self).0 == (old(self).0 | other.0),
    {
        self.0 = self.0 | other.0;
    }

    /// Clear every bit of `other`.
    pub fn remove(&mut self, other: Interest)
        ensures
            final(self).0 == (old(self).0 & !other.0),
    {
        self.0 = self.0 & !other.0;
    }

    /// The raw bits.
    pub fn bits(&self) -> (r: usize)
        ensures
            r == self.0,
    {
        self.0
    }

    /// Whether every bit of `other` is also set in `self`.
    pub fn contains(&self, other: Interest) -> (r: bool)
        ensures
            r == ((self.0 & other.0) == other.0),
    {
        (self.0 & other.0) == other.0
    }

    /// The union of the two sets.
    pub fn union(self, other: Interest) -> (r: Interest)
        ensures
            r.0 == (self.0 | other.0),
    {
        Interest(self.0 | other.0)
    }

    /// The intersection of the two sets.
    pub fn intersect(self, other: Interest) -> (r: Interest)
        ensures
            r.0 == (self.0 & other.0),
    {
        Interest(self.0 & other.0)
    }
}

/// Bit of a read hint reporting buffered data.
pub const HINT_DATA: usize = 0x001;
/// Bit of a read hint reporting a peer hangup.
pub const HINT_HUP: usize = 0x002;
/// Bit of a read hint reporting an error condition.
pub const HINT_ERROR: usize = 0x004;

/// Advice attached to a readable event, extracted from backend hints.
///
/// A consumer may use the hangup hint to skip the read that would otherwise
/// be needed to discover that the peer closed the connection.
#[derive(Copy, Clone, Debug, PartialEq, Eq, Structural, Hash)]
pub struct ReadHint(pub usize);

impl ReadHint {
    /// No advice.
    pub fn empty() -> (r: ReadHint)
        ensures
            r.0 == 0,
    {
        ReadHint(0)
    }

    /// Data is believed to be buffered.
    pub fn data() -> (r: ReadHint)
        ensures
            r.0 == HINT_DATA,
    {
        ReadHint(HINT_DATA)
    }

    /// The peer hung up.
    pub fn hup() -> (r: ReadHint)
        ensures
            r.0 == HINT_HUP,
    {
        ReadHint(HINT_HUP)
    }

    /// An error condition is pending.
    pub fn error() -> (r: ReadHint)
        ensures
            r.0 == HINT_ERROR,
    {
        ReadHint(HINT_ERROR)
    }

    /// Whether every bit of `other` is also set in `self`.
    pub fn contains(&self, other: ReadHint) -> (r: bool)
        ensures
            r == ((self.0 & other.0) == other.0),
    {
        (self.0 & other.0) == other.0
    }

    /// The union of the two hints.
    pub fn union(self, other: ReadHint) -> (r: ReadHint)
        ensures
            r.0 == (self.0 | other.0),
    {
        ReadHint(self.0 | other.0)
    }
}

/// What [`IoEvent::read_hint`] reports for an event of kind `kind`.
pub open spec fn read_hint_spec(kind: Interest) -> usize {
    if (kind.0 & INT_HINTED) != INT_HINTED {
        0
    } else {
        let h: usize = if (kind.0 & INT_HUP) == INT_HUP {
            HINT_HUP
        } else {
            0
        };
        let hd: usize = if (kind.0 & INT_READABLE) == INT_READABLE {
            h | HINT_DATA
        } else {
            h
        };
        if (kind.0 & INT_ERROR) == INT_ERROR {
            hd | HINT_ERROR
        } else {
            hd
        }
    }
}

/// A raw event reported by the poller: a readiness set together with the
/// token of the registration it belongs to.
///
/// A single event may represent more than one readiness kind at a time.
#[derive(Copy, Clone, Debug, PartialEq, Eq, Structural)]
pub struct IoEvent {
    /// The observed readiness, possibly with unsolicited error or hangup bits.
    pub kind: Interest,
    /// The token supplied when the source was registered.
    pub token: Token,
}

impl IoEvent {
    /// Pack a readiness set and a token value into an event.
    pub fn new(kind: Interest, token: usize) -> (r: IoEvent)
        ensures
            r.kind == kind,
            r.token.0 == token,
    {
        IoEvent { kind, token: Token(token) }
    }

    /// The token of the registration this event belongs to.
    pub fn token(&self) -> (r: Token)
        ensures
            r == self.token,
    {
        self.token
    }

    /// The observed readiness set.
    pub fn events(&self) -> (r: Interest)
        ensures
            r == self.kind,
    {
        self.kind
    }

    /// Advice for a readable handle, derived from the backend's hints.
    pub fn read_hint(&self) -> (r: ReadHint)
        ensures
            r.0 == read_hint_spec(self.kind),
    {
        if !self.kind.is_hinted() {
            return ReadHint::empty();
        }

        let h: usize = if self.kind.is_hup() {
            HINT_HUP
        } else {
            0
        };
        let hd: usize = if self.kind.is_readable() {
            h | HINT_DATA
        } else {
            h
        };
        let he: usize = if self.kind.is_error() {
            hd | HINT_ERROR
        } else {
            hd
        };
        ReadHint(he)
    }

    /// Whether the handle is now readable (a hangup also reports readable, so
    /// that a consumer discovers the close).
    pub fn is_readable(&self) -> (r: bool)
        ensures
            r == (((self.kind.0 & INT_READABLE) == INT_READABLE) || ((self.kind.0 & INT_HUP)
                == INT_HUP)),
    {
        self.kind.is_readable() || self.kind.is_hup()
    }

    /// Whether the handle is now writable.
    pub fn is_writable(&self) -> (r: bool)
        ensures
            r == ((self.kind.0 & INT_WRITABLE) == INT_WRITABLE),
    {
        self.kind.is_writable()
    }

    /// Whether the handle reported an error condition.
    pub fn is_error(&self) -> (r: bool)
        ensures
            r == ((self.kind.0 & INT_ERROR) == INT_ERROR),
    {
        self.kind.is_error()
    }
}

} // verus!
