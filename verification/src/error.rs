//! The library's error taxonomy.

use vstd::prelude::*;

verus! {

/// Linux errno for an operation that would block (`EAGAIN`).
pub const ERRNO_AGAIN: i32 = 11;
/// Linux errno for an interrupted system call (`EINTR`).
pub const ERRNO_INTR: i32 = 4;
/// Linux errno for a connect that is still in progress (`EINPROGRESS`).
pub const ERRNO_IN_PROGRESS: i32 = 115;
/// Linux errno for a bad file descriptor (`EBADF`).
pub const ERRNO_BADF: i32 = 9;

/// Every way an operation of this library can fail.
///
/// Would-block is a first-class control signal of non-blocking I/O, kept
/// distinguishable from real errors.  Registration misuse is reported
/// synchronously.  Anything else is the kernel's errno, passed through.
#[derive(Copy, Clone, Debug, PartialEq, Eq, Structural)]
pub enum MioError {
    /// The operation cannot complete without waiting.
    WouldBlock,
    /// A system call was interrupted by a signal.
    Interrupted,
    /// The source is already registered with a poller.
    AlreadyRegistered,
    /// The source is not registered with this poller.
    NotRegistered,
    /// The interests passed to `register` request neither reads nor writes.
    InvalidInterest,
    /// The token value is reserved for the poller's own wake channel.
    InvalidToken,
    /// The events container has no spare capacity for a waker slot.
    NoCapacity,
    /// A raw operating-system error code.
    Os(i32),
}

/// The result type used throughout the library.
pub type MioResult<T> = Result<T, MioError>;

/// The [`MioError`] that stands for the raw errno `code`.
pub open spec fn errno_error_spec(code: i32) -> MioError {
    if code == ERRNO_AGAIN {
        MioError::WouldBlock
    } else if code == ERRNO_INTR {
        MioError::Interrupted
    } else {
        MioError::Os(code)
    }
}

/// Classify a raw errno: would-block and interruption are control signals,
/// anything else is passed through as an operating-system error.
pub fn errno_to_error(code: i32) -> (r: MioError)
    ensures
        r == errno_error_spec(code),
{
    if code == ERRNO_AGAIN {
        MioError::WouldBlock
    } else if code == ERRNO_INTR {
        MioError::Interrupted
    } else {
        MioError::Os(code)
    }
}

impl MioError {
    /// Whether this error is the would-block control signal.
    pub fn is_would_block(&self) -> (r: bool)
        ensures
            r == (*self == MioError::WouldBlock),
    {
        match *self {
            MioError::WouldBlock => true,
            _ => false,
        }
    }

    /// A short human-readable description.
    pub fn describe(&self) -> String {
        match *self {
            MioError::WouldBlock => "operation would block".to_string(),
            MioError::Interrupted => "interrupted system call".to_string(),
            MioError::AlreadyRegistered => "source is already registered".to_string(),
            MioError::NotRegistered => "source is not registered".to_string(),
            MioError::InvalidInterest => "interests request neither reads nor writes".to_string(),
            MioError::InvalidToken => "token value is reserved".to_string(),
            MioError::NoCapacity => "event capacity exhausted".to_string(),
            MioError::Os(_) => "operating system error".to_string(),
        }
    }
}

} // verus!
