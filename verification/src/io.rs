//! Non-blocking I/O handles and the would-block result shape.

use vstd::prelude::*;

use crate::error::ERRNO_AGAIN;
use crate::error::MioError;
use crate::error::MioResult;
use crate::sys;

verus! {

/// The result of a non-blocking operation: either a value, or the
/// indication that the operation cannot complete without waiting.
#[derive(Copy, Clone, Debug, PartialEq, Eq, Structural)]
pub enum NonBlock<T> {
    /// The operation completed with this value.
    Ready(T),
    /// The operation would have blocked; retry after the next readiness
    /// event.
    WouldBlock,
}

impl<T> NonBlock<T> {
    /// Whether the operation would have blocked.
    pub fn would_block(&self) -> (r: bool)
        ensures
            r == (*self is WouldBlock),
    {
        match *self {
            NonBlock::WouldBlock => true,
            _ => false,
        }
    }

    /// The completed value; callers first rule out the would-block case.
    pub fn unwrap(self) -> (r: T)
        requires
            self is Ready,
        ensures
            self == NonBlock::Ready(r),
    {
        match self {
            NonBlock::Ready(v) => v,
            NonBlock::WouldBlock => unreached(),
        }
    }
}

/// A raw kernel I/O handle owned by a source of this library.
#[derive(Copy, Clone, Debug, PartialEq, Eq, Structural)]
pub struct IoDesc {
    /// The file descriptor.
    pub fd: i32,
}

/// Anything holding a kernel handle that can be registered with a poller.
///
/// A source belongs to at most one poller at a time: it records the
/// poller it is registered with, the poller's registration bookkeeping
/// maintains the record, and a second registration anywhere is rejected
/// until the source is deregistered.
pub trait IoHandle {
    /// The handle's descriptor value.
    spec fn desc_spec(&self) -> i32;

    /// The poller this source is registered with, if any.
    spec fn attached_spec(&self) -> Option<i32>;

    /// The handle's descriptor.
    fn desc(&self) -> (r: &IoDesc)
        ensures
            r.fd == self.desc_spec(),
    ;

    /// The poller this source is registered with, if any.
    fn attachment(&self) -> (r: Option<i32>)
        ensures
            r == self.attached_spec(),
    ;

    /// Record the poller this source is registered with; called by the
    /// poller's registration bookkeeping.
    fn set_attachment(&mut self, a: Option<i32>)
        ensures
            final(self).attached_spec() == a,
            final(self).desc_spec() == old(self).desc_spec(),
    ;
}

/// A source that supports non-blocking reads.
pub trait IoReader {
    /// Read at most `max` bytes into `buf`, never blocking.
    fn read_slice(&self, buf: &mut Vec<u8>, max: usize) -> (r: MioResult<NonBlock<usize>>)
        ensures
            r matches Ok(NonBlock::Ready(n)) ==> n <= max && final(buf)@.len() == n,
    ;
}

/// A source that supports non-blocking writes.
pub trait IoWriter {
    /// Write a prefix of `buf`, never blocking; reports how many bytes the
    /// kernel accepted.
    fn write_slice(&self, buf: &[u8]) -> (r: MioResult<NonBlock<usize>>)
        ensures
            r matches Ok(NonBlock::Ready(n)) ==> n <= buf@.len(),
    ;
}

/// A source that accepts inbound connections.
pub trait IoAcceptor<T> {
    /// Accept one pending connection, never blocking.
    fn accept(&mut self) -> MioResult<NonBlock<T>>;
}

/// The reading end of a pipe.
#[derive(Debug)]
pub struct PipeReader {
    /// The underlying descriptor.
    pub desc: IoDesc,
    /// The poller this source is registered with, if any; maintained by
    /// the poller's registration bookkeeping.
    pub attached: Option<i32>,
}

/// The writing end of a pipe.
#[derive(Debug)]
pub struct PipeWriter {
    /// The underlying descriptor.
    pub desc: IoDesc,
    /// The poller this source is registered with, if any; maintained by
    /// the poller's registration bookkeeping.
    pub attached: Option<i32>,
}

impl IoHandle for PipeReader {
    open spec fn desc_spec(&self) -> i32 {
        self.desc.fd
    }

    open spec fn attached_spec(&self) -> Option<i32> {
        self.attached
    }

    fn desc(&self) -> (r: &IoDesc) {
        &self.desc
    }

    fn attachment(&self) -> (r: Option<i32>) {
        self.attached
    }

    fn set_attachment(&mut self, a: Option<i32>) {
        self.attached = a;
    }
}

impl IoHandle for PipeWriter {
    open spec fn desc_spec(&self) -> i32 {
        self.desc.fd
    }

    open spec fn attached_spec(&self) -> Option<i32> {
        self.attached
    }

    fn desc(&self) -> (r: &IoDesc) {
        &self.desc
    }

    fn attachment(&self) -> (r: Option<i32>) {
        self.attached
    }

    fn set_attachment(&mut self, a: Option<i32>) {
        self.attached = a;
    }
}

/// Create a non-blocking pipe.
pub fn pipe() -> (r: MioResult<(PipeReader, PipeWriter)>)
    ensures
        r matches Ok(p) ==> p.0.desc.fd >= 0 && p.1.desc.fd >= 0,
{
    match sys::pipe_create() {
        Ok((rd, wr)) => Ok(
            (
                PipeReader { desc: IoDesc { fd: rd }, attached: None },
                PipeWriter { desc: IoDesc { fd: wr }, attached: None },
            ),
        ),
        Err(code) => Err(crate::error::errno_to_error(code)),
    }
}

/// Read at most `max` bytes from the handle into `buf`.
///
/// A kernel would-block comes back as `Ok(WouldBlock)`; every other kernel
/// failure is an error, so an `Err` is never the would-block signal.
pub fn read_slice<I: IoHandle>(io: &I, buf: &mut Vec<u8>, max: usize) -> (r: MioResult<
    NonBlock<usize>,
>)
    ensures
        r matches Ok(NonBlock::Ready(n)) ==> n <= max && final(buf)@.len() == n,
        r == Ok::<NonBlock<usize>, MioError>(NonBlock::WouldBlock) ==> final(buf)@ == old(buf)@,
        r matches Err(e) ==> e != MioError::WouldBlock && final(buf)@ == old(buf)@,
{
    match sys::fd_read(io.desc().fd, buf, max) {
        Ok(n) => Ok(NonBlock::Ready(n)),
        Err(code) => {
            if code == ERRNO_AGAIN {
                Ok(NonBlock::WouldBlock)
            } else {
                Err(crate::error::errno_to_error(code))
            }
        },
    }
}

/// Write a prefix of `buf` to the handle.
///
/// A kernel would-block comes back as `Ok(WouldBlock)`; every other kernel
/// failure is an error, so an `Err` is never the would-block signal.
pub fn write_slice<I: IoHandle>(io: &I, buf: &[u8]) -> (r: MioResult<NonBlock<usize>>)
    ensures
        r matches Ok(NonBlock::Ready(n)) ==> n <= buf@.len(),
        r matches Err(e) ==> e != MioError::WouldBlock,
{
    match sys::fd_write(io.desc().fd, buf) {
        Ok(n) => Ok(NonBlock::Ready(n)),
        Err(code) => {
            if code == ERRNO_AGAIN {
                Ok(NonBlock::WouldBlock)
            } else {
                Err(crate::error::errno_to_error(code))
            }
        },
    }
}

impl IoReader for PipeReader {
    fn read_slice(&self, buf: &mut Vec<u8>, max: usize) -> (r: MioResult<NonBlock<usize>>) {
        read_slice(self, buf, max)
    }
}

impl IoWriter for PipeWriter {
    fn write_slice(&self, buf: &[u8]) -> (r: MioResult<NonBlock<usize>>) {
        write_slice(self, buf)
    }
}

} // verus!
