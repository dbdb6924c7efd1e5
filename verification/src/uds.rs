//! Non-blocking Unix-domain sources.
//!
//! Stream and datagram sockets over the local transport.  A connect to a
//! listening path completes at once when the listener has backlog space,
//! which makes these sources convenient for exercising the poller without
//! any network.

use vstd::prelude::*;

use crate::error::ERRNO_AGAIN;
use crate::error::ERRNO_IN_PROGRESS;
use crate::error::MioError;
use crate::error::MioResult;
use crate::io::read_slice;
use crate::io::write_slice;
use crate::io::IoAcceptor;
use crate::io::IoDesc;
use crate::io::IoHandle;
use crate::io::IoReader;
use crate::io::IoWriter;
use crate::io::NonBlock;
use crate::net::connect_started;
use crate::net::socket_failure;
use crate::net::Shutdown;
use crate::sys;

verus! {

/// A non-blocking Unix-domain listener bound to a filesystem path.
#[derive(Debug)]
pub struct UnixListener {
    /// The listening socket.
    pub desc: IoDesc,
    /// The poller this source is registered with, if any; maintained by
    /// the poller's registration bookkeeping.
    pub attached: Option<i32>,
}

/// A non-blocking Unix-domain stream.
#[derive(Debug)]
pub struct UnixStream {
    /// The connected (or connecting) socket.
    pub desc: IoDesc,
    /// The poller this source is registered with, if any; maintained by
    /// the poller's registration bookkeeping.
    pub attached: Option<i32>,
}

/// A non-blocking Unix-domain datagram socket.
#[derive(Debug)]
pub struct UnixDatagram {
    /// The datagram socket.
    pub desc: IoDesc,
    /// The poller this source is registered with, if any; maintained by
    /// the poller's registration bookkeeping.
    pub attached: Option<i32>,
}

impl IoHandle for UnixListener {
    open spec fn desc_spec(&self) -> i32 {
        self.desc.fd
    }

    open spec fn attached_spec(&self) -> Option<i32> {
        self.attached
    }

    fn desc(&self) -> (r: &IoDesc) {
        &self.desc
    }

    fn attachment(&self) -> (r: Option<i32>) {
        self.attached
    }

    fn set_attachment(&mut self, a: Option<i32>) {
        self.attached = a;
    }
}

impl IoHandle for UnixStream {
    open spec fn desc_spec(&self) -> i32 {
        self.desc.fd
    }

    open spec fn attached_spec(&self) -> Option<i32> {
        self.attached
    }

    fn desc(&self) -> (r: &IoDesc) {
        &self.desc
    }

    fn attachment(&self) -> (r: Option<i32>) {
        self.attached
    }

    fn set_attachment(&mut self, a: Option<i32>) {
        self.attached = a;
    }
}

impl IoHandle for UnixDatagram {
    open spec fn desc_spec(&self) -> i32 {
        self.desc.fd
    }

    open spec fn attached_spec(&self) -> Option<i32> {
        self.attached
    }

    fn desc(&self) -> (r: &IoDesc) {
        &self.desc
    }

    fn attachment(&self) -> (r: Option<i32>) {
        self.attached
    }

    fn set_attachment(&mut self, a: Option<i32>) {
        self.attached = a;
    }
}

impl UnixListener {
    /// Create a listener bound to `path`, ready to be registered for
    /// readable events.
    pub fn bind(path: &str) -> (r: MioResult<UnixListener>)
        ensures
            r matches Ok(l) ==> l.desc.fd >= 0,
    {
        let fd = match sys::sock_new_unix_stream() {
            Ok(fd) => fd,
            Err(code) => {
                return Err(crate::error::errno_to_error(code));
            },
        };
        match sys::sock_bind_unix(fd, path) {
            Ok(()) => {},
            Err(code) => {
                let _ = sys::close_fd(fd);
                return Err(crate::error::errno_to_error(code));
            },
        }
        match sys::sock_listen(fd, 1024) {
            Ok(()) => Ok(UnixListener { desc: IoDesc { fd }, attached: None }),
            Err(code) => {
                let _ = sys::close_fd(fd);
                Err(crate::error::errno_to_error(code))
            },
        }
    }

    /// Accept one pending connection; would-block when none is pending.
    pub fn accept(&self) -> (r: MioResult<NonBlock<UnixStream>>)
        ensures
            r matches Ok(NonBlock::Ready(s)) ==> s.desc.fd >= 0,
            r matches Err(e) ==> e != MioError::WouldBlock,
    {
        match sys::sock_accept4(self.desc.fd) {
            Ok(fd) => Ok(NonBlock::Ready(UnixStream { desc: IoDesc { fd }, attached: None })),
            Err(code) => {
                if code == ERRNO_AGAIN {
                    Ok(NonBlock::WouldBlock)
                } else {
                    Err(crate::error::errno_to_error(code))
                }
            },
        }
    }

    /// Release the socket; the path stays behind and is removed by the
    /// caller.
    pub fn close(&mut self) {
        let _ = sys::close_fd(self.desc.fd);
        self.desc.fd = -1;
    }
}

impl UnixStream {
    /// Start a non-blocking connect to the listener at `path`.
    ///
    /// A connect the kernel reports as started — in-progress, or the
    /// local would-block form — is a success; its completion is signalled
    /// by a writable event from the poller.  An `Err` is therefore never
    /// a started connect nor the would-block control signal, but a
    /// genuine synchronous failure.
    pub fn connect(path: &str) -> (r: MioResult<UnixStream>)
        ensures
            r matches Ok(s) ==> s.desc.fd >= 0,
            r matches Err(e) ==> e != MioError::WouldBlock && e != MioError::Os(ERRNO_IN_PROGRESS)
                && e != MioError::Os(ERRNO_AGAIN),
    {
        let fd = match sys::sock_new_unix_stream() {
            Ok(fd) => fd,
            Err(code) => {
                return Err(socket_failure(code));
            },
        };
        match sys::sock_connect_unix(fd, path) {
            Ok(()) => Ok(UnixStream { desc: IoDesc { fd }, attached: None }),
            Err(code) => {
                if connect_started(code) {
                    Ok(UnixStream { desc: IoDesc { fd }, attached: None })
                } else {
                    let _ = sys::close_fd(fd);
                    Err(MioError::Os(code))
                }
            },
        }
    }

    /// A connected pair of streams.
    pub fn pair() -> (r: MioResult<(UnixStream, UnixStream)>)
        ensures
            r matches Ok(p) ==> p.0.desc.fd >= 0 && p.1.desc.fd >= 0,
    {
        match sys::sock_pair_unix_stream() {
            Ok((a, b)) => Ok(
                (UnixStream { desc: IoDesc { fd: a }, attached: None }, UnixStream { desc: IoDesc { fd: b }, attached: None }),
            ),
            Err(code) => Err(crate::error::errno_to_error(code)),
        }
    }

    /// Shut one or both sides of the stream down.
    pub fn shutdown(&self, how: Shutdown) -> (r: MioResult<()>) {
        match sys::sock_shutdown(self.desc.fd, &how) {
            Ok(()) => Ok(()),
            Err(code) => Err(crate::error::errno_to_error(code)),
        }
    }

    /// Read and clear the socket's pending error condition.
    ///
    /// `Ok(None)` means no error is pending; a pending error is returned
    /// through the same classification as every other kernel error, so it
    /// is a would-block signal, an interruption, or a raw code.
    pub fn take_error(&self) -> (r: MioResult<Option<MioError>>)
        ensures
            r matches Ok(Some(e)) ==> (e is Os || e == MioError::WouldBlock || e
                == MioError::Interrupted),
    {
        match sys::sock_take_error(self.desc.fd) {
            Ok(0) => Ok(None),
            Ok(code) => Ok(Some(crate::error::errno_to_error(code))),
            Err(code) => Err(crate::error::errno_to_error(code)),
        }
    }

    /// Release the socket.
    pub fn close(&mut self) {
        let _ = sys::close_fd(self.desc.fd);
        self.desc.fd = -1;
    }
}

impl IoAcceptor<UnixStream> for UnixListener {
    fn accept(&mut self) -> MioResult<NonBlock<UnixStream>> {
        UnixListener::accept(self)
    }
}

impl IoReader for UnixStream {
    fn read_slice(&self, buf: &mut Vec<u8>, max: usize) -> (r: MioResult<NonBlock<usize>>) {
        read_slice(self, buf, max)
    }
}

impl IoWriter for UnixStream {
    fn write_slice(&self, buf: &[u8]) -> (r: MioResult<NonBlock<usize>>) {
        write_slice(self, buf)
    }
}

impl UnixDatagram {
    /// A connected pair of datagram sockets; each send on one side is one
    /// receive on the other, with message boundaries kept.
    pub fn pair() -> (r: MioResult<(UnixDatagram, UnixDatagram)>)
        ensures
            r matches Ok(p) ==> p.0.desc.fd >= 0 && p.1.desc.fd >= 0,
    {
        match sys::sock_pair_unix_dgram() {
            Ok((a, b)) => Ok(
                (UnixDatagram { desc: IoDesc { fd: a }, attached: None }, UnixDatagram { desc: IoDesc { fd: b }, attached: None }),
            ),
            Err(code) => Err(crate::error::errno_to_error(code)),
        }
    }

    /// Send one datagram to the connected peer.
    pub fn send(&self, buf: &[u8]) -> (r: MioResult<NonBlock<usize>>)
        ensures
            r matches Ok(NonBlock::Ready(n)) ==> n <= buf@.len(),
            r matches Err(e) ==> e != MioError::WouldBlock,
    {
        write_slice(self, buf)
    }

    /// Receive one datagram of at most `max` bytes into `buf`.
    pub fn recv(&self, buf: &mut Vec<u8>, max: usize) -> (r: MioResult<NonBlock<usize>>)
        ensures
            r matches Ok(NonBlock::Ready(n)) ==> n <= max && final(buf)@.len() == n,
            r matches Err(e) ==> e != MioError::WouldBlock,
    {
        read_slice(self, buf, max)
    }

    /// Release the socket.
    pub fn close(&mut self) {
        let _ = sys::close_fd(self.desc.fd);
        self.desc.fd = -1;
    }
}

} // verus!
