//! Non-blocking TCP and UDP sources.
//!
//! Each source wraps a kernel socket already forced into non-blocking
//! mode at creation, implements the registration contract by handing its
//! descriptor to the poller, and offers I/O operations that report
//! would-block instead of waiting.

use vstd::prelude::*;

use crate::error::ERRNO_AGAIN;
use crate::error::ERRNO_IN_PROGRESS;
use crate::error::MioError;
use crate::error::MioResult;
use crate::io::read_slice;
use crate::io::write_slice;
use crate::io::IoAcceptor;
use crate::io::IoDesc;
use crate::io::IoHandle;
use crate::io::IoReader;
use crate::io::IoWriter;
use crate::io::NonBlock;
use crate::sys;

verus! {

/// An IPv4 endpoint: four address octets and a port.
#[derive(Copy, Clone, Debug, PartialEq, Eq)]
pub struct InetAddr {
    /// The address octets, most significant first.
    pub ip: [u8; 4],
    /// The port, in host order.
    pub port: u16,
}

/// Which side of a connected socket to shut down.
#[derive(Copy, Clone, Debug, PartialEq, Eq, Structural)]
pub enum Shutdown {
    /// Further receives are disallowed.
    Read,
    /// Further sends are disallowed.
    Write,
    /// Both sides at once.
    Both,
}

/// A non-blocking TCP listener.
#[derive(Debug)]
pub struct TcpListener {
    /// The listening socket.
    pub desc: IoDesc,
    /// The poller this source is registered with, if any; maintained by
    /// the poller's registration bookkeeping.
    pub attached: Option<i32>,
}

/// A non-blocking TCP stream.
#[derive(Debug)]
pub struct TcpStream {
    /// The connected (or connecting) socket.
    pub desc: IoDesc,
    /// The poller this source is registered with, if any; maintained by
    /// the poller's registration bookkeeping.
    pub attached: Option<i32>,
}

/// A non-blocking UDP socket.
#[derive(Debug)]
pub struct UdpSocket {
    /// The datagram socket.
    pub desc: IoDesc,
    /// The poller this source is registered with, if any; maintained by
    /// the poller's registration bookkeeping.
    pub attached: Option<i32>,
}

impl IoHandle for TcpListener {
    open spec fn desc_spec(&self) -> i32 {
        self.desc.fd
    }

    open spec fn attached_spec(&self) -> Option<i32> {
        self.attached
    }

    fn desc(&self) -> (r: &IoDesc) {
        &self.desc
    }

    fn attachment(&self) -> (r: Option<i32>) {
        self.attached
    }

    fn set_attachment(&mut self, a: Option<i32>) {
        self.attached = a;
    }
}

impl IoHandle for TcpStream {
    open spec fn desc_spec(&self) -> i32 {
        self.desc.fd
    }

    open spec fn attached_spec(&self) -> Option<i32> {
        self.attached
    }

    fn desc(&self) -> (r: &IoDesc) {
        &self.desc
    }

    fn attachment(&self) -> (r: Option<i32>) {
        self.attached
    }

    fn set_attachment(&mut self, a: Option<i32>) {
        self.attached = a;
    }
}

impl IoHandle for UdpSocket {
    open spec fn desc_spec(&self) -> i32 {
        self.desc.fd
    }

    open spec fn attached_spec(&self) -> Option<i32> {
        self.attached
    }

    fn desc(&self) -> (r: &IoDesc) {
        &self.desc
    }

    fn attachment(&self) -> (r: Option<i32>) {
        self.attached
    }

    fn set_attachment(&mut self, a: Option<i32>) {
        self.attached = a;
    }
}

/// Whether a connect that returned `code` is underway rather than
/// failed: the kernel reports a started non-blocking connect as
/// in-progress on the inet transport and as its would-block form on the
/// local transport; completion is then signalled by write readiness.
pub open spec fn connect_started_spec(code: i32) -> bool {
    code == ERRNO_IN_PROGRESS || code == ERRNO_AGAIN
}

/// Classify a connect failure code; see [`connect_started_spec`].
pub fn connect_started(code: i32) -> (r: bool)
    ensures
        r == connect_started_spec(code),
{
    code == ERRNO_IN_PROGRESS || code == ERRNO_AGAIN
}

/// What a failed socket creation reports: the raw code, passed through.
///
/// Creation never reports the codes that mean a started connect; were
/// one ever seen, it is classified as the retry signal, so that no dead
/// socket can masquerade as a connect that is underway.
pub open spec fn socket_failure_spec(code: i32) -> MioError {
    if connect_started_spec(code) {
        MioError::Interrupted
    } else {
        MioError::Os(code)
    }
}

/// Classify a socket-creation failure; see [`socket_failure_spec`].
pub fn socket_failure(code: i32) -> (r: MioError)
    ensures
        r == socket_failure_spec(code),
{
    if connect_started(code) {
        MioError::Interrupted
    } else {
        MioError::Os(code)
    }
}

impl TcpListener {
    /// Create a listener bound to `addr`, with the address reusable and a
    /// default backlog, ready to be registered for readable events.
    pub fn bind(addr: InetAddr) -> (r: MioResult<TcpListener>)
        ensures
            r matches Ok(l) ==> l.desc.fd >= 0,
    {
        let fd = match sys::sock_new_tcp4() {
            Ok(fd) => fd,
            Err(code) => {
                return Err(crate::error::errno_to_error(code));
            },
        };
        match sys::sock_set_reuseaddr(fd, true) {
            Ok(()) => {},
            Err(code) => {
                let _ = sys::close_fd(fd);
                return Err(crate::error::errno_to_error(code));
            },
        }
        match sys::sock_bind4(fd, addr.ip, addr.port) {
            Ok(()) => {},
            Err(code) => {
                let _ = sys::close_fd(fd);
                return Err(crate::error::errno_to_error(code));
            },
        }
        match sys::sock_listen(fd, 1024) {
            Ok(()) => Ok(TcpListener { desc: IoDesc { fd }, attached: None }),
            Err(code) => {
                let _ = sys::close_fd(fd);
                Err(crate::error::errno_to_error(code))
            },
        }
    }

    /// Accept one pending connection; would-block when none is pending.
    pub fn accept(&self) -> (r: MioResult<NonBlock<TcpStream>>)
        ensures
            r matches Ok(NonBlock::Ready(s)) ==> s.desc.fd >= 0,
            r matches Err(e) ==> e != MioError::WouldBlock,
    {
        match sys::sock_accept4(self.desc.fd) {
            Ok(fd) => Ok(NonBlock::Ready(TcpStream { desc: IoDesc { fd }, attached: None })),
            Err(code) => {
                if code == ERRNO_AGAIN {
                    Ok(NonBlock::WouldBlock)
                } else {
                    Err(crate::error::errno_to_error(code))
                }
            },
        }
    }

    /// The address the listener is bound to.
    pub fn local_addr(&self) -> (r: MioResult<InetAddr>) {
        match sys::sock_local4(self.desc.fd) {
            Ok((ip, port)) => Ok(InetAddr { ip, port }),
            Err(code) => Err(crate::error::errno_to_error(code)),
        }
    }

    /// Release the socket.
    pub fn close(&mut self) {
        let _ = sys::close_fd(self.desc.fd);
        self.desc.fd = -1;
    }
}

impl TcpStream {
    /// Start a non-blocking connect to `addr`.
    ///
    /// The constructor returns as soon as the connect is initiated; a
    /// connect the kernel reports as started — in-progress, or the local
    /// would-block form — is a success, and its completion is signalled
    /// by a writable event from the poller.  An `Err` is therefore never
    /// a started connect nor the would-block control signal, but a
    /// genuine synchronous failure.
    pub fn connect(addr: InetAddr) -> (r: MioResult<TcpStream>)
        ensures
            r matches Ok(s) ==> s.desc.fd >= 0,
            r matches Err(e) ==> e != MioError::WouldBlock && e != MioError::Os(ERRNO_IN_PROGRESS)
                && e != MioError::Os(ERRNO_AGAIN),
    {
        let fd = match sys::sock_new_tcp4() {
            Ok(fd) => fd,
            Err(code) => {
                return Err(socket_failure(code));
            },
        };
        match sys::sock_connect4(fd, addr.ip, addr.port) {
            Ok(()) => Ok(TcpStream { desc: IoDesc { fd }, attached: None }),
            Err(code) => {
                if connect_started(code) {
                    Ok(TcpStream { desc: IoDesc { fd }, attached: None })
                } else {
                    let _ = sys::close_fd(fd);
                    Err(MioError::Os(code))
                }
            },
        }
    }

    /// The local address of the stream.
    pub fn local_addr(&self) -> (r: MioResult<InetAddr>) {
        match sys::sock_local4(self.desc.fd) {
            Ok((ip, port)) => Ok(InetAddr { ip, port }),
            Err(code) => Err(crate::error::errno_to_error(code)),
        }
    }

    /// Shut one or both sides of the stream down.
    pub fn shutdown(&self, how: Shutdown) -> (r: MioResult<()>) {
        match sys::sock_shutdown(self.desc.fd, &how) {
            Ok(()) => Ok(()),
            Err(code) => Err(crate::error::errno_to_error(code)),
        }
    }

    /// Read and clear the socket's pending error condition.
    ///
    /// `Ok(None)` means no error is pending; a pending error is returned
    /// through the same classification as every other kernel error, so it
    /// is a would-block signal, an interruption, or a raw code.
    pub fn take_error(&self) -> (r: MioResult<Option<MioError>>)
        ensures
            r matches Ok(Some(e)) ==> (e is Os || e == MioError::WouldBlock || e
                == MioError::Interrupted),
    {
        match sys::sock_take_error(self.desc.fd) {
            Ok(0) => Ok(None),
            Ok(code) => Ok(Some(crate::error::errno_to_error(code))),
            Err(code) => Err(crate::error::errno_to_error(code)),
        }
    }

    /// Release the socket.
    pub fn close(&mut self) {
        let _ = sys::close_fd(self.desc.fd);
        self.desc.fd = -1;
    }
}

impl IoAcceptor<TcpStream> for TcpListener {
    fn accept(&mut self) -> MioResult<NonBlock<TcpStream>> {
        TcpListener::accept(self)
    }
}

impl IoReader for TcpStream {
    fn read_slice(&self, buf: &mut Vec<u8>, max: usize) -> (r: MioResult<NonBlock<usize>>) {
        read_slice(self, buf, max)
    }
}

impl IoWriter for TcpStream {
    fn write_slice(&self, buf: &[u8]) -> (r: MioResult<NonBlock<usize>>) {
        write_slice(self, buf)
    }
}

/// What [`UdpSocket::set_multicast_time_to_live`] hands the kernel for a
/// requested value: the value clamped into the byte range.
pub open spec fn clamped_ttl_spec(ttl: i32) -> u8 {
    if ttl < 0 {
        0
    } else if ttl > 255 {
        255
    } else {
        ttl as u8
    }
}

/// Clamp a requested multicast time-to-live into the byte range the
/// kernel accepts.
pub fn clamp_ttl(ttl: i32) -> (r: u8)
    ensures
        r == clamped_ttl_spec(ttl),
{
    if ttl < 0 {
        0
    } else if ttl > 255 {
        255
    } else {
        ttl as u8
    }
}

impl UdpSocket {
    /// A fresh, unbound, non-blocking IPv4 UDP socket.
    pub fn v4() -> (r: MioResult<UdpSocket>)
        ensures
            r matches Ok(s) ==> s.desc.fd >= 0,
    {
        match sys::sock_new_udp4() {
            Ok(fd) => Ok(UdpSocket { desc: IoDesc { fd }, attached: None }),
            Err(code) => Err(crate::error::errno_to_error(code)),
        }
    }

    /// Bind the socket to `addr`.
    pub fn bind(&self, addr: InetAddr) -> (r: MioResult<()>) {
        match sys::sock_bind4(self.desc.fd, addr.ip, addr.port) {
            Ok(()) => Ok(()),
            Err(code) => Err(crate::error::errno_to_error(code)),
        }
    }

    /// The address the socket is bound to.
    pub fn local_addr(&self) -> (r: MioResult<InetAddr>) {
        match sys::sock_local4(self.desc.fd) {
            Ok((ip, port)) => Ok(InetAddr { ip, port }),
            Err(code) => Err(crate::error::errno_to_error(code)),
        }
    }

    /// A second handle to the same socket.
    pub fn try_clone(&self) -> (r: MioResult<UdpSocket>)
        ensures
            r matches Ok(s) ==> s.desc.fd >= 0,
    {
        match sys::fd_dup(self.desc.fd) {
            Ok(fd) => Ok(UdpSocket { desc: IoDesc { fd }, attached: None }),
            Err(code) => Err(crate::error::errno_to_error(code)),
        }
    }

    /// Send one datagram to `target`; would-block when the kernel cannot
    /// take it now.
    pub fn send_to(&self, buf: &[u8], target: InetAddr) -> (r: MioResult<NonBlock<usize>>)
        ensures
            r matches Ok(NonBlock::Ready(n)) ==> n <= buf@.len(),
            r matches Err(e) ==> e != MioError::WouldBlock,
    {
        match sys::sock_sendto4(self.desc.fd, buf, target.ip, target.port) {
            Ok(n) => Ok(NonBlock::Ready(n)),
            Err(code) => {
                if code == ERRNO_AGAIN {
                    Ok(NonBlock::WouldBlock)
                } else {
                    Err(crate::error::errno_to_error(code))
                }
            },
        }
    }

    /// Receive one datagram of at most `max` bytes into `buf`, reporting
    /// the sender; would-block when none is queued.
    pub fn recv_from(&self, buf: &mut Vec<u8>, max: usize) -> (r: MioResult<
        NonBlock<(usize, InetAddr)>,
    >)
        ensures
            r matches Ok(NonBlock::Ready(t)) ==> t.0 <= max && final(buf)@.len() == t.0,
            r matches Err(e) ==> e != MioError::WouldBlock,
    {
        match sys::sock_recvfrom4(self.desc.fd, buf, max) {
            Ok((n, ip, port)) => Ok(NonBlock::Ready((n, InetAddr { ip, port }))),
            Err(code) => {
                if code == ERRNO_AGAIN {
                    Ok(NonBlock::WouldBlock)
                } else {
                    Err(crate::error::errno_to_error(code))
                }
            },
        }
    }

    /// Control whether the host loops multicast datagrams back to itself.
    pub fn set_multicast_loop(&self, on: bool) -> (r: MioResult<()>) {
        match sys::sock_set_multicast_loop4(self.desc.fd, on) {
            Ok(()) => Ok(()),
            Err(code) => Err(crate::error::errno_to_error(code)),
        }
    }

    /// Set the time-to-live of outgoing multicast datagrams; the value is
    /// clamped into the byte range the kernel accepts.
    pub fn set_multicast_time_to_live(&self, ttl: i32) -> (r: MioResult<()>) {
        let v = clamp_ttl(ttl);
        match sys::sock_set_multicast_ttl4(self.desc.fd, v) {
            Ok(()) => Ok(()),
            Err(code) => Err(crate::error::errno_to_error(code)),
        }
    }

    /// Join the multicast group `group` on the interface `iface`.
    pub fn join_multicast(&self, group: [u8; 4], iface: [u8; 4]) -> (r: MioResult<()>) {
        match sys::sock_join_multicast4(self.desc.fd, group, iface) {
            Ok(()) => Ok(()),
            Err(code) => Err(crate::error::errno_to_error(code)),
        }
    }

    /// Leave the multicast group `group` on the interface `iface`.
    pub fn leave_multicast(&self, group: [u8; 4], iface: [u8; 4]) -> (r: MioResult<()>) {
        match sys::sock_leave_multicast4(self.desc.fd, group, iface) {
            Ok(()) => Ok(()),
            Err(code) => Err(crate::error::errno_to_error(code)),
        }
    }

    /// Release the socket.
    pub fn close(&mut self) {
        let _ = sys::close_fd(self.desc.fd);
        self.desc.fd = -1;
    }
}

} // verus!
