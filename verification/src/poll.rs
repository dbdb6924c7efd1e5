//! The poller: owner of the selector, the registration table and the event
//! batch.
//!
//! `Poll` unifies two delivery paths.  Kernel sources are watched by the
//! selector; their events arrive from the kernel already shaped by the
//! native edge, level and oneshot flags that the verified mask mapping
//! subscribed.  Custom sources publish readiness into shared words; every
//! delivery decision for them is taken by the verified
//! [`crate::registry::drain_step`], which realises the library's edge,
//! level and oneshot semantics identically for every poll.

use vstd::prelude::*;

use crate::bits::lemma_and_or_intersect;
use crate::bits::lemma_intersect_subset;
use crate::custom::Bound;
use crate::custom::CustomRegistration;
use crate::error::MioError;
use crate::error::MioResult;
use crate::error::ERRNO_BADF;
use crate::event::Interest;
use crate::event::IoEvent;
use crate::event::PollOpt;
use crate::event::INT_ERROR;
use crate::event::INT_HINTED;
use crate::event::INT_HUP;
use crate::event::INT_READABLE;
use crate::event::INT_WRITABLE;
use crate::event::OPT_ONESHOT;
use crate::events::Events;
use crate::io::IoHandle;
use crate::registry::custom_delivery_of;
use crate::registry::delivered_in;
use crate::registry::delivery_ledger;
use crate::registry::delivery_of_entry;
use crate::registry::disarm_implies_event;
use crate::registry::lemma_delivered_push;
use crate::registry::drain_step;
use crate::registry::event_accounted;
use crate::registry::has_id;
use crate::registry::ids_unique;
use crate::registry::kernel_shaped;
use crate::registry::table_shape_preserved;
use crate::registry::RegTable;
use crate::registry::Registration;
use crate::selector::epoll_event_to_interest;
use crate::selector::lemma_epoll_interest_hinted;
use crate::selector::Selector;
use crate::selector::EP_IN;
use crate::sys;
use crate::token::Token;

verus! {

/// The user data the poller reserves for its own wake channel.
pub const WAKE_DATA: u64 = 0xFFFF_FFFF_FFFF_FFFF;

/// The largest serial number handed to a custom registration.
pub const SERIAL_CAP: usize = 0x3FFF_FFFF;

/// The source identity under which a kernel descriptor is tabled.
pub open spec fn kernel_id_spec(fd: i32) -> usize {
    (2 * fd) as usize
}

/// The source identity under which the custom registration with serial
/// number `serial` is tabled.
pub open spec fn custom_id_spec(serial: usize) -> usize {
    (2 * serial + 1) as usize
}

/// Kernel sources have even identities, custom sources odd ones.
pub open spec fn ids_partitioned(s: Seq<Registration>) -> bool {
    forall|i: int| 0 <= i < s.len() ==> ((#[trigger] s[i]).is_custom() <==> s[i].id % 2 == 1)
}

/// Every custom identity was minted below the next serial number.
pub open spec fn serial_ok(s: Seq<Registration>, serial: usize) -> bool {
    forall|i: int|
        0 <= i < s.len() && (#[trigger] s[i]).is_custom() ==> s[i].id < 2 * (serial as int) + 1
}

/// Entry for entry, the two tables name the same sources of the same
/// kinds.
pub open spec fn same_identity(a: Seq<Registration>, b: Seq<Registration>) -> bool {
    &&& b.len() == a.len()
    &&& forall|j: int|
        0 <= j < a.len() ==> (#[trigger] b[j]).id == a[j].id && (b[j].is_custom()
            <==> a[j].is_custom())
}

/// An identity-preserving change keeps every table invariant.
proof fn lemma_identity_preserves_invariants(
    a: Seq<Registration>,
    b: Seq<Registration>,
    serial: usize,
)
    requires
        same_identity(a, b),
        ids_unique(a),
        ids_partitioned(a),
        serial_ok(a, serial),
    ensures
        ids_unique(b),
        ids_partitioned(b),
        serial_ok(b, serial),
{
}

/// The poller: one selector, one registration table, one event batch.
pub struct Poll {
    selector: Selector,
    wakefd: i32,
    table: RegTable,
    events: Events,
    next_serial: usize,
}

impl Poll {
    /// The registration table.
    pub closed spec fn table_spec(&self) -> Seq<Registration> {
        self.table.regs@
    }

    /// The events delivered by the last poll.
    pub closed spec fn events_spec(&self) -> Seq<IoEvent> {
        self.events@
    }

    /// The capacity of the event batch.
    pub closed spec fn capacity_spec(&self) -> usize {
        self.events.capacity_spec()
    }

    /// The selector's kernel handle, identifying this poller.
    pub closed spec fn epfd_spec(&self) -> i32 {
        self.selector.epfd
    }

    /// The serial number the next custom registration will get.
    pub closed spec fn serial_spec(&self) -> usize {
        self.next_serial
    }

    /// The poller's well-formedness: live kernel handles, a table with one
    /// entry per source, identities partitioned between kernel and custom
    /// sources, and serial numbers not yet exhausted.
    pub closed spec fn wf(&self) -> bool {
        &&& self.selector.wf()
        &&& self.wakefd >= 0
        &&& self.table.wf()
        &&& ids_partitioned(self.table.regs@)
        &&& serial_ok(self.table.regs@, self.next_serial)
        &&& self.next_serial <= SERIAL_CAP
        &&& self.events.wf()
    }

    /// Create a poller whose event batch holds up to `capacity` events.
    pub fn with_capacity(capacity: usize) -> (r: MioResult<Poll>)
        ensures
            r matches Ok(p) ==> p.wf() && p.table_spec().len() == 0 && p.events_spec().len() == 0
                && p.capacity_spec() == capacity && p.serial_spec() == 0,
    {
        let selector = match Selector::new() {
            Ok(s) => s,
            Err(e) => {
                return Err(e);
            },
        };
        let wakefd = match sys::eventfd_create() {
            Ok(fd) => fd,
            Err(code) => {
                let _ = sys::close_fd(selector.epfd);
                return Err(crate::error::errno_to_error(code));
            },
        };
        match sys::epoll_add(selector.epfd, wakefd, EP_IN, WAKE_DATA) {
            Ok(()) => {},
            Err(code) => {
                let _ = sys::close_fd(wakefd);
                let _ = sys::close_fd(selector.epfd);
                return Err(crate::error::errno_to_error(code));
            },
        }
        Ok(
            Poll {
                selector,
                wakefd,
                table: RegTable::new(),
                events: Events::with_capacity(capacity),
                next_serial: 0,
            },
        )
    }

    /// Create a poller with the default event batch capacity.
    pub fn new() -> (r: MioResult<Poll>)
        ensures
            r matches Ok(p) ==> p.wf() && p.table_spec().len() == 0 && p.events_spec().len() == 0
                && p.capacity_spec() == 1024 && p.serial_spec() == 0,
    {
        Poll::with_capacity(1024)
    }

    /// The selector's kernel handle.
    pub fn selector_fd(&self) -> (r: i32)
        ensures
            r == self.epfd_spec(),
    {
        self.selector.epfd
    }

    /// Register a kernel source.
    ///
    /// Rejected: interests that request neither reads nor writes, the
    /// reserved token, a negative descriptor, and a source that is
    /// already registered — with this poller or any other; a source
    /// belongs to at most one poller at a time.  On success the table
    /// gains exactly the entry described by the arguments and the source
    /// records this poller; on any failure both are unchanged.
    pub fn register<H: IoHandle>(
        &mut self,
        io: &mut H,
        token: Token,
        interest: Interest,
        opts: PollOpt,
    ) -> (r: MioResult<()>)
        requires
            old(self).wf(),
        ensures
            final(self).wf(),
            final(self).epfd_spec() == old(self).epfd_spec(),
            final(self).capacity_spec() == old(self).capacity_spec(),
            final(self).events_spec() == old(self).events_spec(),
            final(self).serial_spec() == old(self).serial_spec(),
            final(io).desc_spec() == old(io).desc_spec(),
            r is Err ==> final(self).table_spec() == old(self).table_spec() && final(io).attached_spec() == old(io).attached_spec(),
            (interest.0 & (INT_READABLE | INT_WRITABLE)) == 0 ==> r == Err::<(), MioError>(
                MioError::InvalidInterest,
            ),
            (interest.0 & (INT_READABLE | INT_WRITABLE)) != 0 && token.0 as u64 == WAKE_DATA ==> r
                == Err::<(), MioError>(MioError::InvalidToken),
            (interest.0 & (INT_READABLE | INT_WRITABLE)) != 0 && token.0 as u64 != WAKE_DATA
                && old(io).desc_spec() < 0 ==> r == Err::<(), MioError>(MioError::Os(ERRNO_BADF)),
            (interest.0 & (INT_READABLE | INT_WRITABLE)) != 0 && token.0 as u64 != WAKE_DATA
                && old(io).desc_spec() >= 0 && (old(io).attached_spec() is Some || has_id(
                old(self).table_spec(),
                kernel_id_spec(old(io).desc_spec()),
            )) ==> r == Err::<(), MioError>(MioError::AlreadyRegistered),
            r is Ok ==> (interest.0 & (INT_READABLE | INT_WRITABLE)) != 0 && token.0 as u64
                != WAKE_DATA && old(io).desc_spec() >= 0 && old(io).attached_spec() is None
                && !has_id(old(self).table_spec(), kernel_id_spec(old(io).desc_spec())) && final(self).table_spec() =~= old(self).table_spec().push(
                (Registration {
                    id: kernel_id_spec(old(io).desc_spec()),
                    token: token.0,
                    interest,
                    opts,
                    armed: true,
                    word: None,
                }),
            ) && final(io).attached_spec() == Some(old(self).epfd_spec()),
    {
        if (interest.bits() & (INT_READABLE | INT_WRITABLE)) == 0 {
            return Err(MioError::InvalidInterest);
        }
        if token.as_usize() as u64 == WAKE_DATA {
            return Err(MioError::InvalidToken);
        }
        let fd = io.desc().fd;
        if fd < 0 {
            return Err(MioError::Os(ERRNO_BADF));
        }
        if io.attachment().is_some() {
            return Err(MioError::AlreadyRegistered);
        }
        let id: usize = (fd as usize) * 2;
        match self.table.position(id) {
            Some(_) => Err(MioError::AlreadyRegistered),
            None => {
                match self.selector.register(fd, token.as_usize() as u64, interest, opts) {
                    Ok(()) => {
                        self.table.insert(
                            Registration {
                                id,
                                token: token.as_usize(),
                                interest,
                                opts,
                                armed: true,
                                word: None,
                            },
                        );
                        io.set_attachment(Some(self.selector.epfd));
                        Ok(())
                    },
                    Err(e) => Err(e),
                }
            },
        }
    }

    /// Change the token, interests or options of a registered kernel
    /// source.
    ///
    /// Only a source registered with this very poller can be rebound;
    /// one registered elsewhere, or nowhere, is rejected.  Quiescent
    /// interests are accepted here: the kernel can represent a
    /// registration that currently requests nothing.  On success exactly
    /// the source's entry is rebound and rearmed; on failure the table is
    /// unchanged.
    pub fn reregister<H: IoHandle>(
        &mut self,
        io: &H,
        token: Token,
        interest: Interest,
        opts: PollOpt,
    ) -> (r: MioResult<()>)
        requires
            old(self).wf(),
        ensures
            final(self).wf(),
            final(self).epfd_spec() == old(self).epfd_spec(),
            final(self).capacity_spec() == old(self).capacity_spec(),
            final(self).events_spec() == old(self).events_spec(),
            final(self).serial_spec() == old(self).serial_spec(),
            r is Err ==> final(self).table_spec() == old(self).table_spec(),
            token.0 as u64 == WAKE_DATA ==> r == Err::<(), MioError>(MioError::InvalidToken),
            token.0 as u64 != WAKE_DATA && io.desc_spec() < 0 ==> r == Err::<(), MioError>(
                MioError::Os(ERRNO_BADF),
            ),
            token.0 as u64 != WAKE_DATA && io.desc_spec() >= 0 && io.attached_spec() != Some(
                old(self).epfd_spec(),
            ) ==> r == Err::<(), MioError>(MioError::NotRegistered),
            token.0 as u64 != WAKE_DATA && io.desc_spec() >= 0 && io.attached_spec() == Some(
                old(self).epfd_spec(),
            ) && !has_id(old(self).table_spec(), kernel_id_spec(io.desc_spec())) ==> r == Err::<
                (),
                MioError,
            >(MioError::NotRegistered),
            r is Ok ==> token.0 as u64 != WAKE_DATA && io.desc_spec() >= 0 && io.attached_spec()
                == Some(old(self).epfd_spec()) && final(self).table_spec().len() == old(self).table_spec().len() && forall|j: int|
                0 <= j < old(self).table_spec().len() ==> if (#[trigger] old(self).table_spec()[j]).id == kernel_id_spec(io.desc_spec()) {
                    final(self).table_spec()[j] == (Registration {
                        id: old(self).table_spec()[j].id,
                        token: token.0,
                        interest,
                        opts,
                        armed: true,
                        word: old(self).table_spec()[j].word,
                    })
                } else {
                    final(self).table_spec()[j] == old(self).table_spec()[j]
                },
    {
        if token.as_usize() as u64 == WAKE_DATA {
            return Err(MioError::InvalidToken);
        }
        let fd = io.desc().fd;
        if fd < 0 {
            return Err(MioError::Os(ERRNO_BADF));
        }
        let attached_here: bool = match io.attachment() {
            Some(a) => a == self.selector.epfd,
            None => false,
        };
        if !attached_here {
            return Err(MioError::NotRegistered);
        }
        let id: usize = (fd as usize) * 2;
        match self.table.position(id) {
            None => Err(MioError::NotRegistered),
            Some(i) => {
                match self.selector.reregister(fd, token.as_usize() as u64, interest, opts) {
                    Ok(()) => {
                        self.table.set_entry(i, token.as_usize(), interest, opts);
                        proof {
                            lemma_identity_preserves_invariants(
                                old(self).table.regs@,
                                self.table.regs@,
                                self.next_serial,
                            );
                        }
                        Ok(())
                    },
                    Err(e) => Err(e),
                }
            },
        }
    }

    /// Stop watching a kernel source.
    ///
    /// Only a source registered with this very poller can be dropped;
    /// one registered elsewhere, or nowhere, is rejected.  After an `Ok`
    /// the source has no entry left, so no later poll of this poller
    /// delivers an event for it, and the source is free to be registered
    /// again; on failure nothing changes.
    pub fn deregister<H: IoHandle>(&mut self, io: &mut H) -> (r: MioResult<()>)
        requires
            old(self).wf(),
        ensures
            final(self).wf(),
            final(self).epfd_spec() == old(self).epfd_spec(),
            final(self).capacity_spec() == old(self).capacity_spec(),
            final(self).events_spec() == old(self).events_spec(),
            final(self).serial_spec() == old(self).serial_spec(),
            final(io).desc_spec() == old(io).desc_spec(),
            r is Err ==> final(self).table_spec() == old(self).table_spec() && final(io).attached_spec() == old(io).attached_spec(),
            old(io).desc_spec() < 0 ==> r == Err::<(), MioError>(MioError::Os(ERRNO_BADF)),
            old(io).desc_spec() >= 0 && old(io).attached_spec() != Some(old(self).epfd_spec())
                ==> r == Err::<(), MioError>(MioError::NotRegistered),
            old(io).desc_spec() >= 0 && old(io).attached_spec() == Some(old(self).epfd_spec())
                && !has_id(old(self).table_spec(), kernel_id_spec(old(io).desc_spec())) ==> r
                == Err::<(), MioError>(MioError::NotRegistered),
            r is Ok ==> old(io).desc_spec() >= 0 && (exists|i: int|
                0 <= i < old(self).table_spec().len() && (#[trigger] old(self).table_spec()[i]).id
                    == kernel_id_spec(old(io).desc_spec()) && final(self).table_spec() =~= old(self).table_spec().remove(i)) && final(io).attached_spec() is None,
            r is Ok ==> !has_id(final(self).table_spec(), kernel_id_spec(old(io).desc_spec())),
    {
        let fd = io.desc().fd;
        if fd < 0 {
            return Err(MioError::Os(ERRNO_BADF));
        }
        let attached_here: bool = match io.attachment() {
            Some(a) => a == self.selector.epfd,
            None => false,
        };
        if !attached_here {
            return Err(MioError::NotRegistered);
        }
        let id: usize = (fd as usize) * 2;
        match self.table.position(id) {
            None => Err(MioError::NotRegistered),
            Some(i) => {
                match self.selector.deregister(fd) {
                    Ok(()) => {
                        self.table.remove(i);
                        io.set_attachment(None);
                        proof {
                            let a = old(self).table.regs@;
                            let b = self.table.regs@;
                            assert forall|k: int| 0 <= k < b.len() implies !((#[trigger] b[k]).id
                                == id) by {
                                if k < i {
                                    assert(b[k] == a[k]);
                                } else {
                                    assert(b[k] == a[k + 1]);
                                }
                            }
                            assert forall|k: int|
                                0 <= k < b.len() implies ((#[trigger] b[k]).is_custom() <==> b[k].id
                                % 2 == 1) && (b[k].is_custom() ==> b[k].id < 2 * (
                            self.next_serial as int) + 1) by {
                                if k < i {
                                    assert(b[k] == a[k]);
                                } else {
                                    assert(b[k] == a[k + 1]);
                                }
                            }
                        }
                        Ok(())
                    },
                    Err(e) => Err(e),
                }
            },
        }
    }

    /// Register a user-owned custom source.
    ///
    /// Rejected: interests that request neither reads nor writes, a handle
    /// already registered anywhere (a source belongs to at most one poller
    /// at a time), and an exhausted serial space.  On success the table
    /// gains exactly one entry for the handle and the handle records where
    /// it is bound; readiness published before this call is retained and
    /// observed by the next poll.
    pub fn register_custom(
        &mut self,
        handle: &mut CustomRegistration,
        token: Token,
        interest: Interest,
        opts: PollOpt,
    ) -> (r: MioResult<()>)
        requires
            old(self).wf(),
        ensures
            final(self).wf(),
            final(self).epfd_spec() == old(self).epfd_spec(),
            final(self).capacity_spec() == old(self).capacity_spec(),
            final(self).events_spec() == old(self).events_spec(),
            r is Err ==> final(self).table_spec() == old(self).table_spec() && final(self).serial_spec() == old(self).serial_spec() && final(handle).bound_spec() == old(handle).bound_spec(),
            (interest.0 & (INT_READABLE | INT_WRITABLE)) == 0 ==> r == Err::<(), MioError>(
                MioError::InvalidInterest,
            ),
            (interest.0 & (INT_READABLE | INT_WRITABLE)) != 0 && old(handle).bound_spec() is Some
                ==> r == Err::<(), MioError>(MioError::AlreadyRegistered),
            (interest.0 & (INT_READABLE | INT_WRITABLE)) != 0 && old(handle).bound_spec() is None
                && old(self).serial_spec() == SERIAL_CAP ==> r == Err::<(), MioError>(
                MioError::NoCapacity,
            ),
            r is Ok ==> {
                &&& (interest.0 & (INT_READABLE | INT_WRITABLE)) != 0
                &&& old(handle).bound_spec() is None
                &&& final(self).serial_spec() == old(self).serial_spec() + 1
                &&& final(self).table_spec().len() == old(self).table_spec().len() + 1
                &&& (forall|j: int|
                    0 <= j < old(self).table_spec().len() ==> final(self).table_spec()[j] == old(self).table_spec()[j])
                &&& {
                    let e = final(self).table_spec()[old(self).table_spec().len() as int];
                    e.id == custom_id_spec(old(self).serial_spec()) && e.token == token.0
                        && e.interest == interest && e.opts == opts && e.armed && e.is_custom()
                }
                &&& final(handle).bound_spec() == Some(
                    Bound {
                        epfd: old(self).epfd_spec(),
                        id: custom_id_spec(old(self).serial_spec()),
                    },
                )
            },
    {
        if (interest.bits() & (INT_READABLE | INT_WRITABLE)) == 0 {
            return Err(MioError::InvalidInterest);
        }
        if handle.bound().is_some() {
            return Err(MioError::AlreadyRegistered);
        }
        if self.next_serial == SERIAL_CAP {
            return Err(MioError::NoCapacity);
        }
        let serial = self.next_serial;
        let id: usize = 2 * serial + 1;
        proof {
            assert forall|k: int|
                0 <= k < self.table.regs@.len() implies (#[trigger] self.table.regs@[k]).id
                != id by {
                if self.table.regs@[k].id == id {
                    assert(id % 2 == 1);
                    assert(self.table.regs@[k].is_custom());
                    assert(self.table.regs@[k].id < 2 * (self.next_serial as int) + 1);
                }
            }
        }
        handle.word.bind_wake(self.wakefd);
        if handle.word.peek() != 0 {
            let _ = sys::eventfd_write(self.wakefd);
        }
        let w = handle.word.clone();
        self.table.insert(
            Registration { id, token: token.as_usize(), interest, opts, armed: true, word: Some(w) },
        );
        handle.set_bound(Some(Bound { epfd: self.selector.epfd, id }));
        self.next_serial = serial + 1;
        Ok(())
    }

    /// Change the token, interests or options of a registered custom
    /// source and rearm it.
    ///
    /// Quiescent interests are accepted here.  Readiness the source
    /// retained while disarmed or uninteresting becomes deliverable again.
    pub fn reregister_custom(
        &mut self,
        handle: &mut CustomRegistration,
        token: Token,
        interest: Interest,
        opts: PollOpt,
    ) -> (r: MioResult<()>)
        requires
            old(self).wf(),
        ensures
            final(self).wf(),
            final(self).epfd_spec() == old(self).epfd_spec(),
            final(self).capacity_spec() == old(self).capacity_spec(),
            final(self).events_spec() == old(self).events_spec(),
            final(self).serial_spec() == old(self).serial_spec(),
            final(handle).bound_spec() == old(handle).bound_spec(),
            r is Err ==> final(self).table_spec() == old(self).table_spec(),
            old(handle).bound_spec() is None ==> r == Err::<(), MioError>(MioError::NotRegistered),
            old(handle).bound_spec() matches Some(b) && b.epfd != old(self).epfd_spec() ==> r
                == Err::<(), MioError>(MioError::NotRegistered),
            old(handle).bound_spec() matches Some(b) && b.epfd == old(self).epfd_spec() && !has_id(
                old(self).table_spec(),
                b.id,
            ) ==> r == Err::<(), MioError>(MioError::NotRegistered),
            r is Ok ==> (old(handle).bound_spec() matches Some(b) && b.epfd == old(self).epfd_spec() && has_id(old(self).table_spec(), b.id) && final(self).table_spec().len() == old(self).table_spec().len() && forall|j: int|
                0 <= j < old(self).table_spec().len() ==> if (#[trigger] old(self).table_spec()[j]).id == b.id {
                    final(self).table_spec()[j] == (Registration {
                        id: old(self).table_spec()[j].id,
                        token: token.0,
                        interest,
                        opts,
                        armed: true,
                        word: old(self).table_spec()[j].word,
                    })
                } else {
                    final(self).table_spec()[j] == old(self).table_spec()[j]
                }),
    {
        match handle.bound() {
            None => Err(MioError::NotRegistered),
            Some(b) => {
                if b.epfd != self.selector.epfd {
                    return Err(MioError::NotRegistered);
                }
                match self.table.position(b.id) {
                    None => Err(MioError::NotRegistered),
                    Some(i) => {
                        self.table.set_entry(i, token.as_usize(), interest, opts);
                        if handle.word.peek() != 0 {
                            let _ = sys::eventfd_write(self.wakefd);
                        }
                        proof {
                            lemma_identity_preserves_invariants(
                                old(self).table.regs@,
                                self.table.regs@,
                                self.next_serial,
                            );
                        }
                        Ok(())
                    },
                }
            },
        }
    }

    /// Drop the registration of a custom source.
    ///
    /// After an `Ok` the source has no entry left, so no later poll of
    /// this poller delivers an event for it; the handle is free to be
    /// registered again.
    pub fn deregister_custom(&mut self, handle: &mut CustomRegistration) -> (r: MioResult<()>)
        requires
            old(self).wf(),
        ensures
            final(self).wf(),
            final(self).epfd_spec() == old(self).epfd_spec(),
            final(self).capacity_spec() == old(self).capacity_spec(),
            final(self).events_spec() == old(self).events_spec(),
            final(self).serial_spec() == old(self).serial_spec(),
            r is Err ==> final(self).table_spec() == old(self).table_spec() && final(handle).bound_spec() == old(handle).bound_spec(),
            old(handle).bound_spec() is None ==> r == Err::<(), MioError>(MioError::NotRegistered),
            old(handle).bound_spec() matches Some(b) && b.epfd != old(self).epfd_spec() ==> r
                == Err::<(), MioError>(MioError::NotRegistered),
            old(handle).bound_spec() matches Some(b) && b.epfd == old(self).epfd_spec() && !has_id(
                old(self).table_spec(),
                b.id,
            ) ==> r == Err::<(), MioError>(MioError::NotRegistered),
            r is Ok ==> (old(handle).bound_spec() matches Some(b) && b.epfd == old(self).epfd_spec() && (exists|i: int|
                0 <= i < old(self).table_spec().len() && (#[trigger] old(self).table_spec()[i]).id
                    == b.id && final(self).table_spec() =~= old(self).table_spec().remove(i))
                && !has_id(final(self).table_spec(), b.id) && final(handle).bound_spec() is None),
    {
        match handle.bound() {
            None => Err(MioError::NotRegistered),
            Some(b) => {
                if b.epfd != self.selector.epfd {
                    return Err(MioError::NotRegistered);
                }
                match self.table.position(b.id) {
                    None => Err(MioError::NotRegistered),
                    Some(i) => {
                        self.table.remove(i);
                        handle.word.bind_wake(-1);
                        handle.set_bound(None);
                        proof {
                            let a = old(self).table.regs@;
                            let bt = self.table.regs@;
                            assert(exists|k: int|
                                0 <= k < old(self).table_spec().len() && (#[trigger] old(self).table_spec()[k]).id == b.id && self.table.regs@ =~= old(self).table_spec().remove(k)) by {
                                assert(i < old(self).table_spec().len());
                                assert(old(self).table_spec()[i as int].id == b.id);
                                assert(self.table.regs@ =~= old(self).table_spec().remove(
                                    i as int,
                                ));
                            };
                            assert forall|k: int| 0 <= k < bt.len() implies !((#[trigger] bt[k]).id
                                == b.id) by {
                                if k < i {
                                    assert(bt[k] == a[k]);
                                } else {
                                    assert(bt[k] == a[k + 1]);
                                }
                            }
                            assert forall|k: int|
                                0 <= k < bt.len() implies ((#[trigger] bt[k]).is_custom()
                                <==> bt[k].id % 2 == 1) && (bt[k].is_custom() ==> bt[k].id < 2 * (
                            self.next_serial as int) + 1) by {
                                if k < i {
                                    assert(bt[k] == a[k]);
                                } else {
                                    assert(bt[k] == a[k + 1]);
                                }
                            }
                        }
                        Ok(())
                    },
                }
            },
        }
    }

    /// Wait for events.
    ///
    /// Blocks for at most `timeout_ms` milliseconds (`None`: indefinitely;
    /// zero: poll without blocking), then fills the batch, up to its
    /// capacity, with the kernel's reports followed by the pending custom
    /// deliveries.  An interrupted wait reports zero events.
    ///
    /// The contract carries the library's delivery guarantees: the
    /// registration table keeps every identity, token, interest and option
    /// unchanged (a oneshot delivery may only disarm its entry); every
    /// delivered event is accounted for — it is either a kernel report or
    /// the delivery of a registered, armed custom source, carrying that
    /// source's token verbatim and readiness inside its interests plus the
    /// unsolicited error and hangup conditions; and a delivery ledger
    /// exists that assigns each event to the kernel or to the entry it was
    /// drained from, under which an entry ends disarmed exactly when it
    /// was armed, carries the oneshot option, and was delivered — so a
    /// oneshot registration is disarmed with its single delivery and stays
    /// armed otherwise.
    pub fn poll(&mut self, timeout_ms: Option<u32>) -> (r: MioResult<usize>)
        requires
            old(self).wf(),
        ensures
            final(self).wf(),
            final(self).epfd_spec() == old(self).epfd_spec(),
            final(self).capacity_spec() == old(self).capacity_spec(),
            final(self).serial_spec() == old(self).serial_spec(),
            table_shape_preserved(old(self).table_spec(), final(self).table_spec()),
            final(self).events_spec().len() <= final(self).capacity_spec(),
            r matches Ok(n) ==> n == final(self).events_spec().len(),
            r is Err ==> final(self).events_spec().len() == 0,
            old(self).capacity_spec() == 0 ==> r == Ok::<usize, MioError>(0),
            forall|k: int|
                0 <= k < final(self).events_spec().len() ==> event_accounted(
                    old(self).table_spec(),
                    #[trigger] final(self).events_spec()[k],
                ),
            disarm_implies_event(
                old(self).table_spec(),
                final(self).table_spec(),
                final(self).events_spec(),
            ),
            exists|src: Seq<int>|
                delivery_ledger(
                    old(self).table_spec(),
                    final(self).table_spec(),
                    final(self).events_spec(),
                    src,
                ),
    {
        self.events.clear();
        let cap = self.events.capacity();
        if cap == 0 {
            proof {
                assert(exists|s2: Seq<int>|
                    delivery_ledger(
                        old(self).table_spec(),
                        self.table_spec(),
                        self.events_spec(),
                        s2,
                    )) by {
                    assert(delivery_ledger(
                        old(self).table_spec(),
                        self.table_spec(),
                        self.events_spec(),
                        Seq::<int>::empty(),
                    ));
                };
            }
            return Ok(0);
        }
        let raw = match self.selector.fetch(cap, timeout_ms) {
            Ok(v) => v,
            Err(e) => {
                proof {
                    assert(exists|s2: Seq<int>|
                        delivery_ledger(
                            old(self).table_spec(),
                            self.table_spec(),
                            self.events_spec(),
                            s2,
                        )) by {
                        assert(delivery_ledger(
                            old(self).table_spec(),
                            self.table_spec(),
                            self.events_spec(),
                            Seq::<int>::empty(),
                        ));
                    };
                }
                return Err(e);
            },
        };
        let nraw = raw.len();
        let ghost mut src: Seq<int> = Seq::empty();
        let mut i: usize = 0;
        while i < nraw
            invariant
                old(self).wf(),
                nraw == raw@.len(),
                raw@.len() <= cap,
                cap == self.events.capacity_spec(),
                i <= nraw,
                self.events@.len() <= i,
                self.selector == old(self).selector,
                self.wakefd == old(self).wakefd,
                self.table == old(self).table,
                self.next_serial == old(self).next_serial,
                forall|k: int|
                    0 <= k < self.events@.len() ==> kernel_shaped(#[trigger] self.events@[k]),
                src.len() == self.events@.len(),
                forall|p: int| 0 <= p < src.len() ==> (#[trigger] src[p]) == -1,
            decreases nraw - i,
        {
            let p: (u64, u32) = raw[i];
            if p.0 != WAKE_DATA {
                let kind = epoll_event_to_interest(p.1);
                let tok: usize = #[verifier::truncate] (p.0 as usize);
                proof {
                    lemma_epoll_interest_hinted(p.1);
                }
                self.events.push(IoEvent::new(kind, tok));
                proof {
                    src = src.push(-1);
                }
            } else {
                let _ = sys::eventfd_drain(self.wakefd);
            }
            i = i + 1;
        }
        let n = self.table.len();
        proof {
            assert forall|jj: int| 0 <= jj < n implies !delivered_in(src, jj) by {
                if delivered_in(src, jj) {
                    let p = choose|p: int| 0 <= p < src.len() && src[p] == jj;
                    assert(src[p] == -1);
                }
            }
        }
        let mut j: usize = 0;
        while j < n
            invariant
                old(self).wf(),
                n == self.table.regs@.len(),
                n == old(self).table.regs@.len(),
                j <= n,
                cap == self.events.capacity_spec(),
                self.selector == old(self).selector,
                self.wakefd == old(self).wakefd,
                self.next_serial == old(self).next_serial,
                self.events@.len() <= cap,
                self.selector.wf(),
                self.wakefd >= 0,
                self.table.wf(),
                ids_partitioned(self.table.regs@),
                serial_ok(self.table.regs@, self.next_serial),
                self.next_serial <= SERIAL_CAP,
                self.events.wf(),
                table_shape_preserved(old(self).table.regs@, self.table.regs@),
                forall|k: int| j <= k < n ==> self.table.regs@[k] == old(self).table.regs@[k],
                forall|k: int|
                    0 <= k < self.events@.len() ==> event_accounted(
                        old(self).table.regs@,
                        #[trigger] self.events@[k],
                    ),
                disarm_implies_event(old(self).table.regs@, self.table.regs@, self.events@),
                src.len() == self.events@.len(),
                forall|p: int|
                    0 <= p < src.len() && (#[trigger] src[p]) < 0 ==> src[p] == -1 && kernel_shaped(
                        self.events@[p],
                    ),
                forall|p: int|
                    0 <= p < src.len() && (#[trigger] src[p]) >= 0 ==> src[p] < j
                        && delivery_of_entry(old(self).table.regs@[src[p]], self.events@[p]),
                forall|p: int, q: int|
                    0 <= p < q < src.len() && (#[trigger] src[p]) >= 0 ==> src[p] != (
                    #[trigger] src[q]),
                forall|jj: int|
                    0 <= jj < n ==> ((#[trigger] self.table.regs@[jj]).armed <==> (old(self).table.regs@[jj].armed && !((old(self).table.regs@[jj].opts.0 & OPT_ONESHOT)
                        == OPT_ONESHOT && delivered_in(src, jj)))),
            decreases n - j,
        {
            let ghost table0 = self.table.regs@;
            let ghost evs0 = self.events@;
            let ghost src0 = src;
            let full: bool = self.events.len() >= cap;
            let is_custom: bool = self.table.entry(j).word.is_some();
            if is_custom && !full {
                let reg_token: usize = self.table.entry(j).token;
                let reg_interest: Interest = self.table.entry(j).interest;
                let reg_opts: PollOpt = self.table.entry(j).opts;
                let reg_armed: bool = self.table.entry(j).armed;
                let bits: usize = match &self.table.entry(j).word {
                    Some(w) => w.take(),
                    None => 0,
                };
                let oc = drain_step(reg_interest, reg_opts, reg_armed, bits);
                match oc.deliver {
                    Some(eff) => {
                        let ev = IoEvent::new(eff, reg_token);
                        proof {
                            let a = old(self).table.regs@;
                            assert(self.table.regs@[j as int] == a[j as int]);
                            lemma_and_or_intersect(
                                bits,
                                a[j as int].interest.0,
                                (INT_ERROR | INT_HUP),
                            );
                            lemma_intersect_subset(
                                bits,
                                (a[j as int].interest.0 | (INT_ERROR | INT_HUP)),
                            );
                            assert(custom_delivery_of(a, ev, a[j as int].id));
                            assert(delivery_of_entry(a[j as int], ev));
                        }
                        self.events.push(ev);
                        proof {
                            src = src.push(j as int);
                        }
                        if !oc.armed {
                            self.table.disarm(j);
                        }
                        proof {
                            let a = old(self).table.regs@;
                            assert forall|jj: int|
                                0 <= jj < a.len() && jj < self.table.regs@.len() && a[jj].armed
                                    && !(#[trigger] self.table.regs@[jj]).armed implies exists|
                                k: int,
                            |
                                0 <= k < self.events@.len() && (#[trigger] self.events@[k]).token.0
                                    == a[jj].token by {
                                if jj != j as int || oc.armed {
                                    assert(self.table.regs@[jj] == table0[jj]);
                                    let k = choose|k: int|
                                        0 <= k < evs0.len() && (#[trigger] evs0[k]).token.0
                                            == a[jj].token;
                                    assert(self.events@[k].token.0 == a[jj].token);
                                } else {
                                    let k = self.events@.len() - 1;
                                    assert(self.events@[k].token.0 == reg_token);
                                    assert(a[jj].token == reg_token);
                                }
                            }
                            assert(src == src0.push(j as int));
                            assert(self.events@ =~= evs0.push(ev));
                            assert(self.events@[src0.len() as int] == ev);
                            assert forall|p: int|
                                0 <= p < src.len() && (#[trigger] src[p]) < 0 implies src[p] == -1
                                    && kernel_shaped(self.events@[p]) by {
                                assert(src[p] == src0[p]);
                                assert(self.events@[p] == evs0[p]);
                            }
                            assert forall|p: int|
                                0 <= p < src.len() && (#[trigger] src[p]) >= 0 implies src[p] < j
                                    as int + 1 && delivery_of_entry(
                                    a[src[p]],
                                    self.events@[p],
                                ) by {
                                if p < src0.len() {
                                    assert(src[p] == src0[p]);
                                    assert(self.events@[p] == evs0[p]);
                                } else {
                                    assert(src[p] == j as int);
                                    assert(self.events@[p] == ev);
                                }
                            }
                            assert forall|p: int, q: int|
                                0 <= p < q < src.len() && (#[trigger] src[p]) >= 0 implies src[p]
                                    != (#[trigger] src[q]) by {
                                if q >= src0.len() {
                                    assert(src[q] == j as int);
                                    assert(src[p] == src0[p]);
                                }
                            }
                            assert forall|jj: int|
                                0 <= jj < n implies ((#[trigger] self.table.regs@[jj]).armed <==> (
                                a[jj].armed && !((a[jj].opts.0 & OPT_ONESHOT) == OPT_ONESHOT
                                    && delivered_in(src, jj)))) by {
                                lemma_delivered_push(src0, j as int, jj);
                                if jj == j as int {
                                    assert(a[jj].armed);
                                    assert(self.table.regs@[jj].armed == oc.armed);
                                } else {
                                    assert(self.table.regs@[jj] == table0[jj]);
                                }
                            }
                        }
                    },
                    None => {},
                }
                if oc.keep != 0 {
                    match &self.table.entry(j).word {
                        Some(w) => w.publish(oc.keep),
                        None => {},
                    }
                }
            }
            j = j + 1;
        }
        proof {
            assert(delivery_ledger(old(self).table.regs@, self.table.regs@, self.events@, src));
        }
        Ok(self.events.len())
    }

    /// The event at position `idx` of the last poll's batch.
    pub fn event(&self, idx: usize) -> (r: IoEvent)
        requires
            idx < self.events_spec().len(),
        ensures
            r == self.events_spec()[idx as int],
    {
        self.events.get(idx)
    }

    /// The number of events the last poll delivered.
    pub fn events_len(&self) -> (r: usize)
        ensures
            r == self.events_spec().len(),
    {
        self.events.len()
    }
}

} // verus!
