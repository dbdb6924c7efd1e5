use mio::pipe;
use mio::Awakener;
use mio::InetAddr;
use mio::Interest;
use mio::IoEvent;
use mio::IoHandle;
use mio::MioError;
use mio::NonBlock;
use mio::Poll;
use mio::PollOpt;
use mio::TcpListener;
use mio::Token;
use mio::UdpSocket;
use mio::read_slice;
use mio::write_slice;

const LOCALHOST: [u8; 4] = [127, 0, 0, 1];

fn addr(port: u16) -> InetAddr {
    InetAddr { ip: LOCALHOST, port }
}

/// Poll until an event for `token` arrives, or panic after a few rounds.
fn wait_for(poll: &mut Poll, token: Token) -> IoEvent {
    for _ in 0..50 {
        let n = poll.poll(Some(200)).unwrap();
        for i in 0..n {
            let ev = poll.event(i);
            if ev.token() == token {
                return ev;
            }
        }
    }
    panic!("no event arrived for the expected token");
}

#[test]
fn pipe_readable_edge() {
    let mut poll = Poll::with_capacity(16).unwrap();
    let (mut rd, wr) = pipe().unwrap();

    poll.register(&mut rd, Token(5), Interest::readable(), PollOpt::edge())
        .unwrap();
    assert_eq!(poll.poll(Some(0)).unwrap(), 0);

    assert_eq!(write_slice(&wr, b"x").unwrap(), NonBlock::Ready(1));
    let ev = wait_for(&mut poll, Token(5));
    assert!(ev.is_readable());

    // drain the pipe, then nothing more arrives under edge triggering
    let mut buf: Vec<u8> = Vec::new();
    assert_eq!(read_slice(&rd, &mut buf, 16).unwrap(), NonBlock::Ready(1));
    assert_eq!(buf, b"x".to_vec());
    assert_eq!(read_slice(&rd, &mut buf, 16).unwrap(), NonBlock::WouldBlock);
    assert_eq!(poll.poll(Some(0)).unwrap(), 0);
}

#[test]
fn pipe_readable_level_persists() {
    let mut poll = Poll::with_capacity(16).unwrap();
    let (mut rd, wr) = pipe().unwrap();

    poll.register(&mut rd, Token(6), Interest::readable(), PollOpt::level())
        .unwrap();
    assert_eq!(write_slice(&wr, b"y").unwrap(), NonBlock::Ready(1));

    // a continuously readable source reports on every poll under level
    for _ in 0..3 {
        let ev = wait_for(&mut poll, Token(6));
        assert!(ev.is_readable());
    }

    // once drained to would-block, readiness ceases
    let mut buf: Vec<u8> = Vec::new();
    assert_eq!(read_slice(&rd, &mut buf, 16).unwrap(), NonBlock::Ready(1));
    assert_eq!(read_slice(&rd, &mut buf, 16).unwrap(), NonBlock::WouldBlock);
    assert_eq!(poll.poll(Some(0)).unwrap(), 0);
}

#[test]
fn pipe_oneshot_needs_reregister() {
    let mut poll = Poll::with_capacity(16).unwrap();
    let (mut rd, wr) = pipe().unwrap();

    poll.register(
        &mut rd,
        Token(8),
        Interest::readable(),
        PollOpt::level().union(PollOpt::oneshot()),
    )
    .unwrap();
    assert_eq!(write_slice(&wr, b"z").unwrap(), NonBlock::Ready(1));

    let ev = wait_for(&mut poll, Token(8));
    assert!(ev.is_readable());

    // oneshot: still readable, but disarmed until reregister
    assert_eq!(poll.poll(Some(50)).unwrap(), 0);

    poll.reregister(
        &rd,
        Token(8),
        Interest::readable(),
        PollOpt::level().union(PollOpt::oneshot()),
    )
    .unwrap();
    let ev = wait_for(&mut poll, Token(8));
    assert!(ev.is_readable());
}

#[test]
fn registration_misuse_errors() {
    let mut poll = Poll::with_capacity(16).unwrap();
    let (mut rd, _wr) = pipe().unwrap();

    assert_eq!(
        poll.register(&mut rd, Token(0), Interest::none(), PollOpt::edge()),
        Err(MioError::InvalidInterest)
    );
    assert_eq!(
        poll.reregister(&rd, Token(0), Interest::readable(), PollOpt::edge()),
        Err(MioError::NotRegistered)
    );
    assert_eq!(poll.deregister(&mut rd), Err(MioError::NotRegistered));

    poll.register(&mut rd, Token(0), Interest::readable(), PollOpt::edge())
        .unwrap();
    assert_eq!(
        poll.register(&mut rd, Token(1), Interest::readable(), PollOpt::edge()),
        Err(MioError::AlreadyRegistered)
    );

    poll.deregister(&mut rd).unwrap();
    assert_eq!(poll.deregister(&mut rd), Err(MioError::NotRegistered));
}

#[test]
fn deregistered_pipe_stays_silent() {
    let mut poll = Poll::with_capacity(16).unwrap();
    let (mut rd, wr) = pipe().unwrap();

    poll.register(&mut rd, Token(2), Interest::readable(), PollOpt::level())
        .unwrap();
    assert_eq!(write_slice(&wr, b"q").unwrap(), NonBlock::Ready(1));
    assert!(wait_for(&mut poll, Token(2)).is_readable());

    poll.deregister(&mut rd).unwrap();
    assert_eq!(poll.poll(Some(50)).unwrap(), 0);
}

#[test]
fn awakener_wakeup_and_cleanup() {
    let mut poll = Poll::with_capacity(16).unwrap();
    let mut awakener = Awakener::new().unwrap();

    poll.register(&mut awakener, Token(3), Interest::readable(), PollOpt::level())
        .unwrap();
    assert_eq!(poll.poll(Some(0)).unwrap(), 0);

    awakener.wakeup().unwrap();
    let ev = wait_for(&mut poll, Token(3));
    assert!(ev.is_readable());

    awakener.cleanup();
    assert_eq!(poll.poll(Some(0)).unwrap(), 0);
    assert!(awakener.reader().desc().fd >= 0);
}

#[test]
fn tcp_bind_local_addr_and_register() {
    let mut poll = Poll::with_capacity(16).unwrap();

    let mut listener = TcpListener::bind(addr(0)).unwrap();
    let local = listener.local_addr().unwrap();
    assert_eq!(local.ip, LOCALHOST);
    assert_ne!(local.port, 0);

    poll.register(&mut listener, Token(0), Interest::readable(), PollOpt::edge())
        .unwrap();
    assert_eq!(poll.poll(Some(0)).unwrap(), 0);

    // nothing has connected: accepting reports would-block
    assert!(listener.accept().unwrap().would_block());

    poll.deregister(&mut listener).unwrap();
}

#[test]
fn udp_bind_local_addr_and_register() {
    let mut poll = Poll::with_capacity(16).unwrap();

    let mut sock = UdpSocket::v4().unwrap();
    sock.bind(addr(0)).unwrap();
    let local = sock.local_addr().unwrap();
    assert_eq!(local.ip, LOCALHOST);
    assert_ne!(local.port, 0);

    // an unbound-to-peer UDP socket is immediately writable
    poll.register(&mut sock, Token(1), Interest::writable(), PollOpt::edge())
        .unwrap();
    let ev = wait_for(&mut poll, Token(1));
    assert!(ev.is_writable());

    sock.set_multicast_loop(true).unwrap();

    // a duplicated handle names the same bound socket
    let clone = sock.try_clone().unwrap();
    assert_eq!(clone.local_addr().unwrap().port, local.port);
}

#[test]
fn multicast_ttl_requests_are_clamped() {
    assert_eq!(mio::clamp_ttl(-1), 0);
    assert_eq!(mio::clamp_ttl(-1000), 0);
    assert_eq!(mio::clamp_ttl(0), 0);
    assert_eq!(mio::clamp_ttl(31), 31);
    assert_eq!(mio::clamp_ttl(255), 255);
    assert_eq!(mio::clamp_ttl(256), 255);
    assert_eq!(mio::clamp_ttl(4096), 255);
}

#[test]
fn selector_select_fills_events() {
    let selector = mio::Selector::new().unwrap();
    let (mut rd, wr) = pipe().unwrap();

    let mask = mio::ioevent_to_epoll(Interest::readable(), PollOpt::level());
    selector.register(rd.desc().fd, 5, Interest::readable(), PollOpt::level()).unwrap();
    assert_ne!(mask & 0x001, 0);

    let mut events = mio::Events::with_capacity(4);
    let n = selector.select(&mut events, Some(0)).unwrap();
    assert_eq!(n, 0);

    assert_eq!(write_slice(&wr, b"k").unwrap(), NonBlock::Ready(1));
    let n = selector.select(&mut events, Some(500)).unwrap();
    assert_eq!(n, 1);
    assert_eq!(events.len(), 1);
    let ev = events.get(0);
    assert_eq!(ev.token(), Token(5));
    assert!(ev.is_readable());
    // events from the readiness backend carry hints
    assert!(ev.events().is_hinted());

    selector.deregister(rd.desc().fd).unwrap();
}

#[test]
fn mask_mapping_round_trip() {
    // a level registration never carries the native edge flag
    let level = mio::ioevent_to_epoll(Interest::readable(), PollOpt::level());
    let edge = mio::ioevent_to_epoll(Interest::readable(), PollOpt::edge());
    assert_eq!(level & 0x8000_0000, 0);
    assert_ne!(edge & 0x8000_0000, 0);

    // native readable and hangup map back to readiness
    let kind = mio::epoll_event_to_interest(0x001 | 0x010);
    assert!(kind.is_readable());
    assert!(kind.is_hup());
    assert!(kind.is_hinted());
    assert!(!kind.is_writable());

    // native error maps to the error condition
    let kind = mio::epoll_event_to_interest(0x008);
    assert!(kind.is_error());
    assert!(!kind.is_readable());
}

#[test]
fn register_with_second_poller_fails() {
    let mut first = Poll::with_capacity(8).unwrap();
    let mut second = Poll::with_capacity(8).unwrap();
    let (mut rd, wr) = pipe().unwrap();

    first
        .register(&mut rd, Token(1), Interest::readable(), PollOpt::level())
        .unwrap();

    // a source belongs to at most one poller at a time
    assert_eq!(
        second.register(&mut rd, Token(2), Interest::readable(), PollOpt::level()),
        Err(MioError::AlreadyRegistered)
    );
    // and only its own poller may rebind or drop it
    assert_eq!(
        second.reregister(&rd, Token(2), Interest::readable(), PollOpt::level()),
        Err(MioError::NotRegistered)
    );
    assert_eq!(second.deregister(&mut rd), Err(MioError::NotRegistered));

    // the first registration is untouched by the rejections
    assert_eq!(write_slice(&wr, b"x").unwrap(), NonBlock::Ready(1));
    let ev = wait_for(&mut first, Token(1));
    assert!(ev.is_readable());

    // after a deregistration the source is free again
    first.deregister(&mut rd).unwrap();
    second
        .register(&mut rd, Token(2), Interest::readable(), PollOpt::level())
        .unwrap();
    let ev = wait_for(&mut second, Token(2));
    assert!(ev.is_readable());
}

#[test]
fn connect_code_classification() {
    // in-progress and the local would-block form mean the connect started
    assert!(mio::connect_started(115));
    assert!(mio::connect_started(11));
    assert!(!mio::connect_started(111));
    assert!(!mio::connect_started(0));

    // a creation failure passes its code through raw
    assert_eq!(mio::socket_failure(24), MioError::Os(24));
    assert_eq!(mio::socket_failure(13), MioError::Os(13));
}
