//! A pipe-backed wakeup primitive.
//!
//! The reading end is registered with a poller; writing one byte makes it
//! readable and so unblocks a wait.  Unlike [`crate::waker::Waker`], which
//! owns an event counter object, this primitive is built from a plain pipe
//! and must be drained explicitly once observed.

use vstd::prelude::*;

use crate::error::MioError;
use crate::error::MioResult;
use crate::io::pipe;
use crate::io::IoDesc;
use crate::io::IoHandle;
use crate::io::PipeReader;
use crate::io::PipeWriter;
use crate::sys;

verus! {

/// How many bytes one drain read consumes at most.
pub const DRAIN_CHUNK: usize = 128;

/// How many drain reads one cleanup performs at most.
pub const DRAIN_ROUNDS: usize = 0x10000;

/// A wakeup primitive backed by a pipe.
#[derive(Debug)]
pub struct Awakener {
    reader: PipeReader,
    writer: PipeWriter,
    attached: Option<i32>,
}

impl Awakener {
    /// The writing end's descriptor.
    pub closed spec fn writer_spec(&self) -> i32 {
        self.writer.desc.fd
    }

    /// Create the pipe pair.
    pub fn new() -> (r: MioResult<Awakener>)
        ensures
            r matches Ok(a) ==> a.desc_spec() >= 0 && a.writer_spec() >= 0,
    {
        match pipe() {
            Ok((rd, wr)) => Ok(Awakener { reader: rd, writer: wr, attached: None }),
            Err(e) => Err(e),
        }
    }

    /// Make the reading end readable, unblocking a poller it is registered
    /// with.
    ///
    /// A full pipe still reports success: the unread bytes already
    /// guarantee a wakeup.
    pub fn wakeup(&self) -> (r: MioResult<()>)
        ensures
            r matches Err(e) ==> e != MioError::WouldBlock,
    {
        match sys::fd_write(self.writer.desc.fd, &[1u8]) {
            Ok(_) => Ok(()),
            Err(code) => {
                let e = crate::error::errno_to_error(code);
                if e.is_would_block() {
                    Ok(())
                } else {
                    Err(e)
                }
            },
        }
    }

    /// Consume buffered wakeup bytes until the pipe is quiescent.
    pub fn cleanup(&self) {
        let mut buf: Vec<u8> = Vec::new();
        let mut rounds: usize = 0;
        while rounds < DRAIN_ROUNDS
            invariant
                rounds <= DRAIN_ROUNDS,
            decreases DRAIN_ROUNDS - rounds,
        {
            match sys::fd_read(self.reader.desc.fd, &mut buf, DRAIN_CHUNK) {
                Ok(n) => {
                    if n == 0 {
                        return ;
                    }
                },
                Err(_) => {
                    return ;
                },
            }
            rounds = rounds + 1;
        }
    }

    /// The reading end, the part a poller watches.
    pub fn reader(&self) -> (r: &PipeReader)
        ensures
            r.desc.fd == self.desc_spec(),
    {
        &self.reader
    }
}

impl IoHandle for Awakener {
    closed spec fn desc_spec(&self) -> i32 {
        self.reader.desc.fd
    }

    closed spec fn attached_spec(&self) -> Option<i32> {
        self.attached
    }

    fn desc(&self) -> (r: &IoDesc) {
        &self.reader.desc
    }

    fn attachment(&self) -> (r: Option<i32>) {
        self.attached
    }

    fn set_attachment(&mut self, a: Option<i32>) {
        self.attached = a;
    }
}

} // verus!
