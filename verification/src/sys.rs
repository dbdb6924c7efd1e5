//! Trusted wrappers around the kernel interface.
//!
//! Every function here is `external_body`: its body makes exactly one call
//! into the `nix` crate (which issues the system call) and converts the
//! result to plain values.  The contracts state only what the system call's
//! documentation promises of every outcome; which events the kernel chooses
//! to report, or what bytes a descriptor yields, is never promised.  All
//! delivery decisions taken on these results are made by verified code.

use vstd::prelude::*;

verus! {

/// Relies on `nix::sys::epoll::epoll_create1`: creates an epoll instance
/// and returns its nonnegative file descriptor, or an errno.
#[verifier::external_body]
pub(crate) fn epoll_create() -> (r: Result<i32, i32>)
    ensures
        r matches Ok(fd) ==> fd >= 0,
{
    nix::sys::epoll::epoll_create1(nix::sys::epoll::EpollCreateFlags::EPOLL_CLOEXEC)
        .map_err(|e| e as i32)
}

/// Relies on `nix::sys::epoll::epoll_ctl` with `EPOLL_CTL_ADD`: starts
/// watching `fd` with the native event mask `mask`; the kernel returns
/// `data` verbatim in every event it reports for this registration.
#[verifier::external_body]
pub(crate) fn epoll_add(epfd: i32, fd: i32, mask: u32, data: u64) -> (r: Result<(), i32>) {
    let mut ev = nix::sys::epoll::EpollEvent::new(
        nix::sys::epoll::EpollFlags::from_bits_truncate(mask as i32),
        data,
    );
    nix::sys::epoll::epoll_ctl(epfd, nix::sys::epoll::EpollOp::EpollCtlAdd, fd, &mut ev)
        .map_err(|e| e as i32)
}

/// Relies on `nix::sys::epoll::epoll_ctl` with `EPOLL_CTL_MOD`: replaces
/// the native event mask and the user data of an existing registration.
#[verifier::external_body]
pub(crate) fn epoll_mod(epfd: i32, fd: i32, mask: u32, data: u64) -> (r: Result<(), i32>) {
    let mut ev = nix::sys::epoll::EpollEvent::new(
        nix::sys::epoll::EpollFlags::from_bits_truncate(mask as i32),
        data,
    );
    nix::sys::epoll::epoll_ctl(epfd, nix::sys::epoll::EpollOp::EpollCtlMod, fd, &mut ev)
        .map_err(|e| e as i32)
}

/// Relies on `nix::sys::epoll::epoll_ctl` with `EPOLL_CTL_DEL`: stops
/// watching `fd`; the kernel reports no further events for it on `epfd`.
#[verifier::external_body]
pub(crate) fn epoll_del(epfd: i32, fd: i32) -> (r: Result<(), i32>) {
    nix::sys::epoll::epoll_ctl(epfd, nix::sys::epoll::EpollOp::EpollCtlDel, fd, None)
        .map_err(|e| e as i32)
}

/// Relies on `nix::sys::epoll::epoll_wait`: blocks up to `timeout_ms`
/// milliseconds (negative: indefinitely) and reports at most `max` events,
/// each as the user data given at registration and the native readiness
/// mask.  The kernel writes only defined `EPOLL*` mask bits.
#[verifier::external_body]
pub(crate) fn epoll_fetch(epfd: i32, max: usize, timeout_ms: isize) -> (r: Result<
    Vec<(u64, u32)>,
    i32,
>)
    ensures
        r matches Ok(v) ==> v@.len() <= max,
{
    let mut buf = vec![nix::sys::epoll::EpollEvent::empty(); max];
    match nix::sys::epoll::epoll_wait(epfd, &mut buf, timeout_ms) {
        Ok(n) => Ok(buf[..n].iter().map(|e| (e.data(), e.events().bits() as u32)).collect()),
        Err(e) => Err(e as i32),
    }
}

/// Relies on `nix::sys::eventfd::eventfd`: creates a nonblocking event
/// counter object and returns its nonnegative file descriptor.
#[verifier::external_body]
pub(crate) fn eventfd_create() -> (r: Result<i32, i32>)
    ensures
        r matches Ok(fd) ==> fd >= 0,
{
    nix::sys::eventfd::eventfd(
        0,
        nix::sys::eventfd::EfdFlags::EFD_CLOEXEC | nix::sys::eventfd::EfdFlags::EFD_NONBLOCK,
    )
        .map_err(|e| e as i32)
}

/// Relies on `nix::unistd::write` on an eventfd: adds one to the counter,
/// making the descriptor readable; fails with `EAGAIN` only when the
/// counter is saturated, in which case a wakeup is already pending.
#[verifier::external_body]
pub(crate) fn eventfd_write(fd: i32) -> (r: Result<(), i32>) {
    match nix::unistd::write(fd, &[1u8, 0, 0, 0, 0, 0, 0, 0]) {
        Ok(_) => Ok(()),
        Err(e) => Err(e as i32),
    }
}

/// Relies on `nix::unistd::read` on an eventfd: reads the 8-byte counter
/// value and resets the counter to zero, making the descriptor quiescent.
#[verifier::external_body]
pub(crate) fn eventfd_drain(fd: i32) -> (r: Result<(), i32>) {
    let mut buf = [0u8; 8];
    match nix::unistd::read(fd, &mut buf) {
        Ok(_) => Ok(()),
        Err(e) => Err(e as i32),
    }
}

/// Relies on `nix::unistd::close`: releases the descriptor.
#[verifier::external_body]
pub(crate) fn close_fd(fd: i32) -> (r: Result<(), i32>) {
    nix::unistd::close(fd).map_err(|e| e as i32)
}

/// Relies on `nix::unistd::pipe2`: creates a nonblocking pipe and returns
/// the nonnegative read and write descriptors.
#[verifier::external_body]
pub(crate) fn pipe_create() -> (r: Result<(i32, i32), i32>)
    ensures
        r matches Ok(p) ==> p.0 >= 0 && p.1 >= 0,
{
    nix::unistd::pipe2(nix::fcntl::OFlag::O_CLOEXEC | nix::fcntl::OFlag::O_NONBLOCK)
        .map_err(|e| e as i32)
}

/// Relies on `nix::unistd::read`: reads at most `max` bytes from the
/// descriptor into `out`; on success `out` holds exactly the bytes read.
/// A return of zero bytes on a stream means the peer closed it.
#[verifier::external_body]
pub(crate) fn fd_read(fd: i32, out: &mut Vec<u8>, max: usize) -> (r: Result<usize, i32>)
    ensures
        r matches Ok(n) ==> n <= max && final(out)@.len() == n,
        r is Err ==> final(out)@ == old(out)@,
{
    let mut buf = vec![0u8; max];
    match nix::unistd::read(fd, &mut buf) {
        Ok(n) => {
            buf.truncate(n);
            *out = buf;
            Ok(n)
        },
        Err(e) => Err(e as i32),
    }
}

/// Relies on `nix::unistd::write`: writes a prefix of `buf` to the
/// descriptor and returns how many bytes the kernel accepted.
#[verifier::external_body]
pub(crate) fn fd_write(fd: i32, buf: &[u8]) -> (r: Result<usize, i32>)
    ensures
        r matches Ok(n) ==> n <= buf@.len(),
{
    nix::unistd::write(fd, buf).map_err(|e| e as i32)
}

/// Relies on `nix::sys::socket::socket`: creates a nonblocking IPv4 TCP
/// socket and returns its nonnegative descriptor.
#[verifier::external_body]
pub(crate) fn sock_new_tcp4() -> (r: Result<i32, i32>)
    ensures
        r matches Ok(fd) ==> fd >= 0,
{
    nix::sys::socket::socket(
        nix::sys::socket::AddressFamily::Inet,
        nix::sys::socket::SockType::Stream,
        nix::sys::socket::SockFlag::SOCK_NONBLOCK | nix::sys::socket::SockFlag::SOCK_CLOEXEC,
        None,
    )
        .map_err(|e| e as i32)
}

/// Relies on `nix::sys::socket::socket`: creates a nonblocking IPv4 UDP
/// socket and returns its nonnegative descriptor.
#[verifier::external_body]
pub(crate) fn sock_new_udp4() -> (r: Result<i32, i32>)
    ensures
        r matches Ok(fd) ==> fd >= 0,
{
    nix::sys::socket::socket(
        nix::sys::socket::AddressFamily::Inet,
        nix::sys::socket::SockType::Datagram,
        nix::sys::socket::SockFlag::SOCK_NONBLOCK | nix::sys::socket::SockFlag::SOCK_CLOEXEC,
        None,
    )
        .map_err(|e| e as i32)
}

/// Relies on `nix::sys::socket::bind`: binds the socket to the IPv4
/// address and port.
#[verifier::external_body]
pub(crate) fn sock_bind4(fd: i32, ip: [u8; 4], port: u16) -> (r: Result<(), i32>) {
    nix::sys::socket::bind(fd, &nix::sys::socket::SockaddrIn::new(ip[0], ip[1], ip[2], ip[3], port))
        .map_err(|e| e as i32)
}

/// Relies on `nix::sys::socket::listen`: starts accepting inbound
/// connections with the given backlog.
#[verifier::external_body]
pub(crate) fn sock_listen(fd: i32, backlog: usize) -> (r: Result<(), i32>) {
    nix::sys::socket::listen(fd, backlog).map_err(|e| e as i32)
}

/// Relies on `nix::sys::socket::accept4`: accepts one pending connection
/// as a fresh nonblocking socket with a nonnegative descriptor; fails
/// with `EAGAIN` when none is pending.
#[verifier::external_body]
pub(crate) fn sock_accept4(fd: i32) -> (r: Result<i32, i32>)
    ensures
        r matches Ok(s) ==> s >= 0,
{
    nix::sys::socket::accept4(
        fd,
        nix::sys::socket::SockFlag::SOCK_NONBLOCK | nix::sys::socket::SockFlag::SOCK_CLOEXEC,
    )
        .map_err(|e| e as i32)
}

/// Relies on `nix::sys::socket::connect`: starts connecting the socket;
/// on a nonblocking socket the kernel reports `EINPROGRESS` and signals
/// completion by write readiness.
#[verifier::external_body]
pub(crate) fn sock_connect4(fd: i32, ip: [u8; 4], port: u16) -> (r: Result<(), i32>) {
    nix::sys::socket::connect(
        fd,
        &nix::sys::socket::SockaddrIn::new(ip[0], ip[1], ip[2], ip[3], port),
    )
        .map_err(|e| e as i32)
}

/// Relies on `nix::sys::socket::getsockname`: reports the socket's bound
/// IPv4 address and port.
#[verifier::external_body]
pub(crate) fn sock_local4(fd: i32) -> (r: Result<([u8; 4], u16), i32>) {
    nix::sys::socket::getsockname::<nix::sys::socket::SockaddrIn>(fd)
        .map(|sa| (sa.ip().to_be_bytes(), sa.port()))
        .map_err(|e| e as i32)
}

/// Relies on `nix::sys::socket::sendto` with `MSG_DONTWAIT`: sends a
/// prefix of `buf` as one datagram to the IPv4 address and port, and
/// reports how many bytes the kernel accepted.
#[verifier::external_body]
pub(crate) fn sock_sendto4(fd: i32, buf: &[u8], ip: [u8; 4], port: u16) -> (r: Result<usize, i32>)
    ensures
        r matches Ok(n) ==> n <= buf@.len(),
{
    nix::sys::socket::sendto(
        fd,
        buf,
        &nix::sys::socket::SockaddrIn::new(ip[0], ip[1], ip[2], ip[3], port),
        nix::sys::socket::MsgFlags::MSG_DONTWAIT,
    )
        .map_err(|e| e as i32)
}

/// Relies on `nix::sys::socket::recvfrom`: receives one datagram of at
/// most `max` bytes into `out` and reports the sender's IPv4 address and
/// port (all zeroes when the kernel supplies none).
#[verifier::external_body]
pub(crate) fn sock_recvfrom4(fd: i32, out: &mut Vec<u8>, max: usize) -> (r: Result<
    (usize, [u8; 4], u16),
    i32,
>)
    ensures
        r matches Ok(t) ==> t.0 <= max && final(out)@.len() == t.0,
        r is Err ==> final(out)@ == old(out)@,
{
    let mut buf = vec![0u8; max];
    match nix::sys::socket::recvfrom::<nix::sys::socket::SockaddrIn>(fd, &mut buf) {
        Ok((n, sa)) => {
            buf.truncate(n);
            *out = buf;
            match sa {
                Some(sa) => Ok((n, sa.ip().to_be_bytes(), sa.port())),
                None => Ok((n, [0, 0, 0, 0], 0)),
            }
        },
        Err(e) => Err(e as i32),
    }
}

/// Relies on `nix::sys::socket::getsockopt` with `SocketError`: reads
/// and clears the socket's pending error code; zero means none.
#[verifier::external_body]
pub(crate) fn sock_take_error(fd: i32) -> (r: Result<i32, i32>) {
    nix::sys::socket::getsockopt(fd, nix::sys::socket::sockopt::SocketError)
        .map_err(|e| e as i32)
}

/// Relies on `nix::unistd::dup`: duplicates the descriptor; both refer to
/// the same open socket.
#[verifier::external_body]
pub(crate) fn fd_dup(fd: i32) -> (r: Result<i32, i32>)
    ensures
        r matches Ok(d) ==> d >= 0,
{
    nix::unistd::dup(fd).map_err(|e| e as i32)
}

/// Relies on `nix::sys::socket::setsockopt` with `ReuseAddr`.
#[verifier::external_body]
pub(crate) fn sock_set_reuseaddr(fd: i32, on: bool) -> (r: Result<(), i32>) {
    nix::sys::socket::setsockopt(fd, nix::sys::socket::sockopt::ReuseAddr, &on)
        .map_err(|e| e as i32)
}

/// Relies on `nix::sys::socket::setsockopt` with `IpMulticastLoop`.
#[verifier::external_body]
pub(crate) fn sock_set_multicast_loop4(fd: i32, on: bool) -> (r: Result<(), i32>) {
    nix::sys::socket::setsockopt(fd, nix::sys::socket::sockopt::IpMulticastLoop, &on)
        .map_err(|e| e as i32)
}

/// Relies on `nix::sys::socket::setsockopt` with `IpMulticastTtl`.
#[verifier::external_body]
pub(crate) fn sock_set_multicast_ttl4(fd: i32, ttl: u8) -> (r: Result<(), i32>) {
    nix::sys::socket::setsockopt(fd, nix::sys::socket::sockopt::IpMulticastTtl, &ttl)
        .map_err(|e| e as i32)
}

/// Relies on `nix::sys::socket::setsockopt` with `IpAddMembership`:
/// joins the multicast group on the given interface.
#[verifier::external_body]
pub(crate) fn sock_join_multicast4(fd: i32, group: [u8; 4], iface: [u8; 4]) -> (r: Result<
    (),
    i32,
>) {
    let req = nix::sys::socket::sockopt::IpAddMembership;
    nix::sys::socket::setsockopt(
        fd,
        req,
        &nix::sys::socket::IpMembershipRequest::new(group.into(), Some(iface.into())),
    )
        .map_err(|e| e as i32)
}

/// Relies on `nix::sys::socket::setsockopt` with `IpDropMembership`:
/// leaves the multicast group on the given interface.
#[verifier::external_body]
pub(crate) fn sock_leave_multicast4(fd: i32, group: [u8; 4], iface: [u8; 4]) -> (r: Result<
    (),
    i32,
>) {
    let req = nix::sys::socket::sockopt::IpDropMembership;
    nix::sys::socket::setsockopt(
        fd,
        req,
        &nix::sys::socket::IpMembershipRequest::new(group.into(), Some(iface.into())),
    )
        .map_err(|e| e as i32)
}

/// Relies on `nix::sys::socket::socket`: creates a nonblocking
/// Unix-domain stream socket and returns its nonnegative descriptor.
#[verifier::external_body]
pub(crate) fn sock_new_unix_stream() -> (r: Result<i32, i32>)
    ensures
        r matches Ok(fd) ==> fd >= 0,
{
    nix::sys::socket::socket(
        nix::sys::socket::AddressFamily::Unix,
        nix::sys::socket::SockType::Stream,
        nix::sys::socket::SockFlag::SOCK_NONBLOCK | nix::sys::socket::SockFlag::SOCK_CLOEXEC,
        None,
    )
        .map_err(|e| e as i32)
}

/// Relies on `nix::sys::socket::bind` with a Unix-domain path address.
#[verifier::external_body]
pub(crate) fn sock_bind_unix(fd: i32, path: &str) -> (r: Result<(), i32>) {
    match nix::sys::socket::UnixAddr::new(path) {
        Ok(addr) => nix::sys::socket::bind(fd, &addr).map_err(|e| e as i32),
        Err(e) => Err(e as i32),
    }
}

/// Relies on `nix::sys::socket::connect` with a Unix-domain path address;
/// for a local listener with backlog space the connect completes at once.
#[verifier::external_body]
pub(crate) fn sock_connect_unix(fd: i32, path: &str) -> (r: Result<(), i32>) {
    match nix::sys::socket::UnixAddr::new(path) {
        Ok(addr) => nix::sys::socket::connect(fd, &addr).map_err(|e| e as i32),
        Err(e) => Err(e as i32),
    }
}

/// Relies on `nix::sys::socket::socketpair`: creates a connected pair of
/// nonblocking Unix-domain stream sockets.
#[verifier::external_body]
pub(crate) fn sock_pair_unix_stream() -> (r: Result<(i32, i32), i32>)
    ensures
        r matches Ok(p) ==> p.0 >= 0 && p.1 >= 0,
{
    nix::sys::socket::socketpair(
        nix::sys::socket::AddressFamily::Unix,
        nix::sys::socket::SockType::Stream,
        None,
        nix::sys::socket::SockFlag::SOCK_NONBLOCK | nix::sys::socket::SockFlag::SOCK_CLOEXEC,
    )
        .map_err(|e| e as i32)
}

/// Relies on `nix::sys::socket::socketpair`: creates a connected pair of
/// nonblocking Unix-domain datagram sockets.
#[verifier::external_body]
pub(crate) fn sock_pair_unix_dgram() -> (r: Result<(i32, i32), i32>)
    ensures
        r matches Ok(p) ==> p.0 >= 0 && p.1 >= 0,
{
    nix::sys::socket::socketpair(
        nix::sys::socket::AddressFamily::Unix,
        nix::sys::socket::SockType::Datagram,
        None,
        nix::sys::socket::SockFlag::SOCK_NONBLOCK | nix::sys::socket::SockFlag::SOCK_CLOEXEC,
    )
        .map_err(|e| e as i32)
}

/// Relies on `nix::sys::socket::shutdown`: closes the reading side, the
/// writing side, or both sides of a connected socket.
#[verifier::external_body]
pub(crate) fn sock_shutdown(fd: i32, how: &crate::net::Shutdown) -> (r: Result<(), i32>) {
    let native = match how {
        crate::net::Shutdown::Read => nix::sys::socket::Shutdown::Read,
        crate::net::Shutdown::Write => nix::sys::socket::Shutdown::Write,
        crate::net::Shutdown::Both => nix::sys::socket::Shutdown::Both,
    };
    nix::sys::socket::shutdown(fd, native).map_err(|e| e as i32)
}

} // verus!
