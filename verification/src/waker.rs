//! Cross-thread unblocking of a poller.

use vstd::prelude::*;

use crate::error::MioError;
use crate::error::MioResult;
use crate::event::Interest;
use crate::poll::Poll;
use crate::poll::WAKE_DATA;
use crate::selector::EP_ET;
use crate::selector::EP_IN;
use crate::sys;
use crate::token::Token;

verus! {

/// An object that unblocks a concurrent or future poll.
///
/// Waking delivers, through the poller it was created from, an event whose
/// token is the waker's token and whose readiness contains readable.
/// Multiple wakes may coalesce into a single event; a wake issued before
/// any poll is in progress is observed by the next poll.
#[derive(Debug)]
pub struct Waker {
    fd: i32,
    token: Token,
}

impl Waker {
    /// The waker's token.
    pub closed spec fn token_spec(&self) -> Token {
        self.token
    }

    /// Create a waker that unblocks `poll`, delivering `token`.
    ///
    /// Backed by an event counter object registered edge-triggered with
    /// the poller, so that every wake after a quiescent spell produces one
    /// readable event carrying `token` verbatim.  The reserved token is
    /// rejected.
    pub fn new(poll: &Poll, token: Token) -> (r: MioResult<Waker>)
        ensures
            token.0 as u64 == WAKE_DATA ==> r == Err::<Waker, MioError>(MioError::InvalidToken),
            r matches Ok(w) ==> w.token_spec() == token,
    {
        if token.as_usize() as u64 == WAKE_DATA {
            return Err(MioError::InvalidToken);
        }
        let fd = match sys::eventfd_create() {
            Ok(fd) => fd,
            Err(code) => {
                return Err(crate::error::errno_to_error(code));
            },
        };
        match sys::epoll_add(poll.selector_fd(), fd, EP_IN | EP_ET, token.as_usize() as u64) {
            Ok(()) => Ok(Waker { fd, token }),
            Err(code) => {
                let _ = sys::close_fd(fd);
                Err(crate::error::errno_to_error(code))
            },
        }
    }

    /// The waker's token.
    pub fn token(&self) -> (r: Token)
        ensures
            r == self.token_spec(),
    {
        self.token
    }

    /// Unblock the poller.
    ///
    /// A saturated wake counter still reports success: the pending wake
    /// already guarantees that a poll returns.
    pub fn wake(&self) -> (r: MioResult<()>)
        ensures
            r matches Err(e) ==> e != MioError::WouldBlock,
    {
        match sys::eventfd_write(self.fd) {
            Ok(()) => Ok(()),
            Err(code) => {
                let e = crate::error::errno_to_error(code);
                if e.is_would_block() {
                    Ok(())
                } else {
                    Err(e)
                }
            },
        }
    }

    /// Release the waker's kernel handle.
    pub fn close(&mut self) {
        let _ = sys::close_fd(self.fd);
        self.fd = -1;
    }
}

} // verus!
