//! The completion-to-readiness adapter.
//!
//! A completion port reports "bytes transferred", not "handle readable".
//! The adapter presents the readiness model anyway: it drives one
//! outstanding overlapped read per socket, treats a completed read as read
//! readiness whose payload later read calls consume, latches write
//! readiness while no write is outstanding, and maps a zero-byte stream
//! read completion to a hangup.  The kernel side of that machinery cannot
//! run here; what this module holds is the decision logic — from the
//! record's state and a completion outcome to the next state, the
//! operation to issue, and the readiness to publish — verified for every
//! input.

use vstd::prelude::*;

use crate::error::MioError;
use crate::event::Interest;
use crate::event::INT_HUP;
use crate::event::INT_READABLE;
use crate::event::INT_WRITABLE;
use crate::io::NonBlock;

verus! {

/// Windows error code for a datagram that does not fit the caller's
/// buffer.
pub const ERR_MSG_SIZE: i32 = 10040;

/// The state of a socket's outstanding overlapped read.
pub enum OpState {
    /// Nothing outstanding and nothing buffered.
    Empty,
    /// An overlapped operation is in flight.
    Pending,
    /// A completed read's payload awaits the caller.
    Ready(Vec<u8>),
    /// A completed operation failed with this raw code.
    Failed(i32),
}

/// What the adapter asks the completion port to do next.
#[derive(Copy, Clone, Debug, PartialEq, Eq, Structural)]
pub enum PortAction {
    /// Nothing to issue.
    Idle,
    /// Issue the next overlapped read.
    IssueRead,
    /// Issue an overlapped write of the buffered bytes.
    IssueWrite,
}

/// After a consuming read, the next overlapped read is underway: on a
/// bound socket it was issued and is pending; an unbound socket stays
/// quiescent with nothing issued.
pub open spec fn rescheduled(
    before: CompletionSock,
    after: CompletionSock,
    action: PortAction,
) -> bool {
    if before.bound {
        action == PortAction::IssueRead && after.read is Pending
    } else {
        action == PortAction::Idle && after.read is Empty
    }
}

/// The adapter's record for one socket.
pub struct CompletionSock {
    /// The outstanding-read state.
    pub read: OpState,
    /// Whether an overlapped write is in flight; one at a time.
    pub write_busy: bool,
    /// Whether the socket is bound to a completion port.
    pub bound: bool,
    /// Whether the socket is a byte stream (a zero-byte read completion
    /// then means the peer closed) rather than a datagram socket.
    pub stream: bool,
}

impl CompletionSock {
    /// A fresh record: nothing outstanding, nothing buffered.
    pub fn new(stream: bool, bound: bool) -> (r: CompletionSock)
        ensures
            r.read is Empty,
            !r.write_busy,
            r.bound == bound,
            r.stream == stream,
    {
        CompletionSock { read: OpState::Empty, write_busy: false, bound, stream }
    }

    /// Whether the next read should be scheduled: only when nothing is
    /// outstanding or buffered, and only on a socket the port knows.
    pub open spec fn wants_read_spec(&self) -> bool {
        self.read is Empty && self.bound
    }

    /// Schedule the next overlapped read if the record calls for one.
    ///
    /// Anything already in flight, buffered or failed is left for the
    /// caller to consume first.
    pub fn schedule_read(&mut self) -> (r: PortAction)
        ensures
            r == (if old(self).wants_read_spec() {
                PortAction::IssueRead
            } else {
                PortAction::Idle
            }),
            old(self).wants_read_spec() ==> final(self).read is Pending,
            !old(self).wants_read_spec() ==> final(self).read == old(self).read,
            final(self).write_busy == old(self).write_busy,
            final(self).bound == old(self).bound,
            final(self).stream == old(self).stream,
    {
        match self.read {
            OpState::Empty => {
                if self.bound {
                    self.read = OpState::Pending;
                    PortAction::IssueRead
                } else {
                    PortAction::Idle
                }
            },
            _ => PortAction::Idle,
        }
    }

    /// What registration publishes at once: write readiness is latched
    /// immediately while no write is outstanding (false positives are
    /// acceptable on a completion backend), read readiness never is.
    pub open spec fn register_publish_spec(&self, interest: Interest) -> usize {
        if (interest.0 & INT_WRITABLE) == INT_WRITABLE && !self.write_busy && self.bound {
            INT_WRITABLE
        } else {
            0
        }
    }

    /// Apply a registration with the given interests: schedule a read for
    /// a readable interest and report the readiness to publish at once.
    pub fn post_register(&mut self, interest: Interest) -> (r: (PortAction, Interest))
        ensures
            r.1.0 == old(self).register_publish_spec(interest),
            (interest.0 & INT_READABLE) == INT_READABLE ==> r.0 == (if old(self).wants_read_spec() {
                PortAction::IssueRead
            } else {
                PortAction::Idle
            }) && (old(self).wants_read_spec() ==> final(self).read is Pending),
            (interest.0 & INT_READABLE) != INT_READABLE ==> r.0 == PortAction::Idle && final(self).read == old(self).read,
            final(self).write_busy == old(self).write_busy,
            final(self).bound == old(self).bound,
            final(self).stream == old(self).stream,
    {
        let publish: usize = if interest.is_writable() && !self.write_busy && self.bound {
            INT_WRITABLE
        } else {
            0
        };
        let action = if interest.is_readable() {
            self.schedule_read()
        } else {
            PortAction::Idle
        };
        (action, Interest(publish))
    }

    /// The readiness a completed read publishes: read readiness, plus a
    /// hangup when a byte stream completes with zero bytes — the peer
    /// closed, and the consumer can learn it without another read.
    pub open spec fn read_publish_spec(&self, len: nat) -> usize {
        if self.stream && len == 0 {
            INT_READABLE | INT_HUP
        } else {
            INT_READABLE
        }
    }

    /// Record the outcome the completion port reported for the
    /// outstanding read, and say which readiness to publish.
    ///
    /// A failure is also published as read readiness: the consumer's next
    /// read call collects the error.
    pub fn complete_read(&mut self, outcome: Result<Vec<u8>, i32>) -> (r: Interest)
        requires
            old(self).read is Pending,
        ensures
            match outcome {
                Ok(data) => final(self).read == OpState::Ready(data) && r.0 == old(self).read_publish_spec(data@.len()),
                Err(code) => final(self).read == OpState::Failed(code) && r.0 == INT_READABLE,
            },
            final(self).write_busy == old(self).write_busy,
            final(self).bound == old(self).bound,
            final(self).stream == old(self).stream,
    {
        match outcome {
            Ok(data) => {
                let publish: usize = if self.stream && data.len() == 0 {
                    INT_READABLE | INT_HUP
                } else {
                    INT_READABLE
                };
                self.read = OpState::Ready(data);
                Interest(publish)
            },
            Err(code) => {
                self.read = OpState::Failed(code);
                Interest(INT_READABLE)
            },
        }
    }

    /// A stream read: consume up to `max` buffered bytes.
    ///
    /// Buffered bytes are handed out first and never lost — a partial
    /// read keeps the remainder buffered.  On exhaustion the next
    /// overlapped read is scheduled and later calls report would-block
    /// until it completes.  A recorded failure is handed out once and a
    /// fresh read is scheduled.
    pub fn user_read(&mut self, max: usize) -> (r: (Result<NonBlock<Vec<u8>>, MioError>,
        PortAction))
        ensures
            final(self).write_busy == old(self).write_busy,
            final(self).bound == old(self).bound,
            final(self).stream == old(self).stream,
            old(self).read is Pending ==> r.0 == Ok::<NonBlock<Vec<u8>>, MioError>(
                NonBlock::WouldBlock,
            ) && final(self).read is Pending && r.1 == PortAction::Idle,
            old(self).read is Empty ==> r.0 == Ok::<NonBlock<Vec<u8>>, MioError>(
                NonBlock::WouldBlock,
            ) && rescheduled(*old(self), *final(self), r.1),
            old(self).read matches OpState::Ready(data) ==> {
                &&& data@.len() > max ==> {
                    &&& r.0 matches Ok(NonBlock::Ready(out)) && out@ == data@.subrange(
                        0,
                        max as int,
                    )
                    &&& final(self).read matches OpState::Ready(rest) && rest@ == data@.subrange(
                        max as int,
                        data@.len() as int,
                    )
                    &&& r.1 == PortAction::Idle
                }
                &&& data@.len() <= max ==> (r.0 matches Ok(NonBlock::Ready(out)) && out@ == data@)
                    && rescheduled(*old(self), *final(self), r.1)
            },
            old(self).read matches OpState::Failed(code) ==> r.0 == Err::<
                NonBlock<Vec<u8>>,
                MioError,
            >(crate::error::errno_error_spec(code)) && rescheduled(*old(self), *final(self), r.1),
    {
        match &self.read {
            OpState::Empty => {
                let action = self.schedule_read();
                (Ok(NonBlock::WouldBlock), action)
            },
            OpState::Pending => (Ok(NonBlock::WouldBlock), PortAction::Idle),
            OpState::Ready(_) => {
                let mut taken = OpState::Empty;
                core::mem::swap(&mut taken, &mut self.read);
                let mut data = match taken {
                    OpState::Ready(d) => d,
                    _ => Vec::new(),
                };
                if data.len() > max {
                    let rest = data.split_off(max);
                    self.read = OpState::Ready(rest);
                    (Ok(NonBlock::Ready(data)), PortAction::Idle)
                } else {
                    let action = self.schedule_read();
                    (Ok(NonBlock::Ready(data)), action)
                }
            },
            OpState::Failed(_) => {
                let mut taken = OpState::Empty;
                core::mem::swap(&mut taken, &mut self.read);
                let code = match taken {
                    OpState::Failed(c) => c,
                    _ => 0,
                };
                let action = self.schedule_read();
                (Err(crate::error::errno_to_error(code)), action)
            },
        }
    }

    /// A datagram receive: consume the buffered datagram whole.
    ///
    /// A datagram that does not fit in `max` bytes stays buffered and the
    /// call reports the message-size error instead, so no datagram is
    /// ever truncated silently.
    pub fn user_recv(&mut self, max: usize) -> (r: (Result<NonBlock<Vec<u8>>, MioError>,
        PortAction))
        ensures
            final(self).write_busy == old(self).write_busy,
            final(self).bound == old(self).bound,
            final(self).stream == old(self).stream,
            old(self).read is Pending ==> r.0 == Ok::<NonBlock<Vec<u8>>, MioError>(
                NonBlock::WouldBlock,
            ) && final(self).read is Pending,
            old(self).read is Empty ==> r.0 == Ok::<NonBlock<Vec<u8>>, MioError>(
                NonBlock::WouldBlock,
            ) && rescheduled(*old(self), *final(self), r.1),
            old(self).read matches OpState::Ready(data) ==> {
                &&& data@.len() > max ==> r.0 == Err::<NonBlock<Vec<u8>>, MioError>(
                    MioError::Os(ERR_MSG_SIZE),
                ) && final(self).read == OpState::Ready(data) && r.1 == PortAction::Idle
                &&& data@.len() <= max ==> (r.0 matches Ok(NonBlock::Ready(out)) && out@ == data@)
                    && rescheduled(*old(self), *final(self), r.1)
            },
            old(self).read matches OpState::Failed(code) ==> r.0 == Err::<
                NonBlock<Vec<u8>>,
                MioError,
            >(crate::error::errno_error_spec(code)) && rescheduled(*old(self), *final(self), r.1),
    {
        match &self.read {
            OpState::Empty => {
                let action = self.schedule_read();
                (Ok(NonBlock::WouldBlock), action)
            },
            OpState::Pending => (Ok(NonBlock::WouldBlock), PortAction::Idle),
            OpState::Ready(_) => {
                let mut taken = OpState::Empty;
                core::mem::swap(&mut taken, &mut self.read);
                let data = match taken {
                    OpState::Ready(d) => d,
                    _ => Vec::new(),
                };
                if data.len() > max {
                    self.read = OpState::Ready(data);
                    (Err(MioError::Os(ERR_MSG_SIZE)), PortAction::Idle)
                } else {
                    let action = self.schedule_read();
                    (Ok(NonBlock::Ready(data)), action)
                }
            },
            OpState::Failed(_) => {
                let mut taken = OpState::Empty;
                core::mem::swap(&mut taken, &mut self.read);
                let code = match taken {
                    OpState::Failed(c) => c,
                    _ => 0,
                };
                let action = self.schedule_read();
                (Err(crate::error::errno_to_error(code)), action)
            },
        }
    }

    /// A write: at most one overlapped write is outstanding at a time.
    ///
    /// While one is in flight the call would block; otherwise the bytes
    /// are taken whole — the reported count is the full length — and a
    /// write is issued.
    pub fn user_write(&mut self, len: usize) -> (r: (NonBlock<usize>, PortAction))
        ensures
            final(self).read == old(self).read,
            final(self).bound == old(self).bound,
            final(self).stream == old(self).stream,
            (old(self).write_busy || !old(self).bound) ==> r.0 == NonBlock::<
                usize,
            >::WouldBlock && final(self).write_busy == old(self).write_busy && r.1
                == PortAction::Idle,
            (!old(self).write_busy && old(self).bound) ==> r.0 == NonBlock::Ready(len) && final(self).write_busy && r.1 == PortAction::IssueWrite,
    {
        if self.write_busy || !self.bound {
            (NonBlock::WouldBlock, PortAction::Idle)
        } else {
            self.write_busy = true;
            (NonBlock::Ready(len), PortAction::IssueWrite)
        }
    }

    /// Record that the outstanding write completed: the socket is
    /// writable again and says so.
    pub fn complete_write(&mut self) -> (r: Interest)
        requires
            old(self).write_busy,
        ensures
            !final(self).write_busy,
            final(self).read == old(self).read,
            final(self).bound == old(self).bound,
            final(self).stream == old(self).stream,
            r.0 == INT_WRITABLE,
    {
        self.write_busy = false;
        Interest(INT_WRITABLE)
    }
}

} // verus!
