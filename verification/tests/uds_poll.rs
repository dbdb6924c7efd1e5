use mio::read_slice;
use mio::write_slice;
use mio::Interest;
use mio::IoEvent;
use mio::NonBlock;
use mio::Poll;
use mio::PollOpt;
use mio::Shutdown;
use mio::Token;
use mio::UnixDatagram;
use mio::UnixListener;
use mio::UnixStream;
use tempdir::TempDir;

/// Poll until an event for `token` arrives, or panic after a few rounds.
fn wait_for(poll: &mut Poll, token: Token) -> IoEvent {
    for _ in 0..50 {
        let n = poll.poll(Some(200)).unwrap();
        for i in 0..n {
            let ev = poll.event(i);
            if ev.token() == token {
                return ev;
            }
        }
    }
    panic!("no event arrived for the expected token");
}

#[test]
fn unix_echo_server() {
    let dir = TempDir::new("echo").unwrap();
    let path_buf = dir.path().join("listener");
    let path = path_buf.to_str().unwrap();

    let mut poll = Poll::with_capacity(16).unwrap();

    let mut listener = UnixListener::bind(path).unwrap();
    poll.register(&mut listener, Token(0), Interest::readable(), PollOpt::edge())
        .unwrap();

    let mut stream = UnixStream::connect(path).unwrap();
    poll.register(&mut stream, Token(1), Interest::writable(), PollOpt::edge())
        .unwrap();

    // the listener reports the inbound connection and the connect
    // completes with writability; under edge triggering each arrives
    // exactly once, in either order
    let mut listener_readable = false;
    let mut stream_writable = false;
    for _ in 0..50 {
        let n = poll.poll(Some(200)).unwrap();
        for i in 0..n {
            let ev = poll.event(i);
            if ev.token() == Token(0) && ev.is_readable() {
                assert!(!listener_readable);
                listener_readable = true;
            }
            if ev.token() == Token(1) && ev.is_writable() {
                assert!(!stream_writable);
                stream_writable = true;
            }
        }
        if listener_readable && stream_writable {
            break;
        }
    }
    assert!(listener_readable);
    assert!(stream_writable);

    let mut accepted = listener.accept().unwrap().unwrap();
    poll.register(&mut accepted, Token(2), Interest::readable(), PollOpt::edge())
        .unwrap();

    assert_eq!(write_slice(&stream, b"foo").unwrap(), NonBlock::Ready(3));

    // the accepted side becomes readable and reads the bytes back
    let ev = wait_for(&mut poll, Token(2));
    assert!(ev.is_readable());
    let mut buf: Vec<u8> = Vec::new();
    assert_eq!(
        read_slice(&accepted, &mut buf, 16).unwrap(),
        NonBlock::Ready(3)
    );
    assert_eq!(buf, b"foo".to_vec());

    // echo the bytes back and read them on the client
    assert_eq!(write_slice(&accepted, b"foo").unwrap(), NonBlock::Ready(3));
    poll.reregister(&stream, Token(1), Interest::readable(), PollOpt::edge())
        .unwrap();
    let ev = wait_for(&mut poll, Token(1));
    assert!(ev.is_readable());
    assert_eq!(read_slice(&stream, &mut buf, 16).unwrap(), NonBlock::Ready(3));
    assert_eq!(buf, b"foo".to_vec());
}

#[test]
fn unix_stream_pair_transfers_data() {
    let mut poll = Poll::with_capacity(16).unwrap();
    let (a, mut b) = UnixStream::pair().unwrap();

    poll.register(&mut b, Token(9), Interest::readable(), PollOpt::edge())
        .unwrap();
    assert_eq!(poll.poll(Some(0)).unwrap(), 0);

    let mut buf: Vec<u8> = Vec::new();
    assert_eq!(read_slice(&b, &mut buf, 16).unwrap(), NonBlock::WouldBlock);

    assert_eq!(write_slice(&a, b"ping").unwrap(), NonBlock::Ready(4));
    let ev = wait_for(&mut poll, Token(9));
    assert!(ev.is_readable());
    assert_eq!(read_slice(&b, &mut buf, 16).unwrap(), NonBlock::Ready(4));
    assert_eq!(buf, b"ping".to_vec());

    // a healthy stream has no pending error
    assert_eq!(a.take_error().unwrap(), None);
}

#[test]
fn unix_stream_oneshot_reregister() {
    let mut poll = Poll::with_capacity(16).unwrap();
    let (mut a, _b) = UnixStream::pair().unwrap();

    let both = Interest::readable().union(Interest::writable());
    let opts = PollOpt::edge().union(PollOpt::oneshot());
    poll.register(&mut a, Token(7), both, opts).unwrap();

    // a connected stream is writable at once
    let ev = wait_for(&mut poll, Token(7));
    assert!(ev.is_writable());

    // oneshot: disarmed after the single delivery
    assert_eq!(poll.poll(Some(50)).unwrap(), 0);

    // reregistering makes the readiness observable again, once
    poll.reregister(&a, Token(7), both, opts).unwrap();
    let ev = wait_for(&mut poll, Token(7));
    assert!(ev.is_writable());
    assert_eq!(poll.poll(Some(50)).unwrap(), 0);
}

#[test]
fn unix_stream_shutdown_write_signals_peer() {
    let mut poll = Poll::with_capacity(16).unwrap();
    let (a, mut b) = UnixStream::pair().unwrap();

    poll.register(&mut b, Token(4), Interest::readable(), PollOpt::level())
        .unwrap();
    assert_eq!(poll.poll(Some(0)).unwrap(), 0);

    a.shutdown(Shutdown::Write).unwrap();

    // the peer observes the closed stream as readable; reading yields
    // end-of-stream
    let ev = wait_for(&mut poll, Token(4));
    assert!(ev.is_readable());
    let mut buf: Vec<u8> = Vec::new();
    assert_eq!(read_slice(&b, &mut buf, 16).unwrap(), NonBlock::Ready(0));
}

#[test]
fn unix_datagram_pair_keeps_message_boundaries() {
    let mut poll = Poll::with_capacity(16).unwrap();
    let (a, mut b) = UnixDatagram::pair().unwrap();

    poll.register(&mut b, Token(6), Interest::readable(), PollOpt::edge())
        .unwrap();

    assert_eq!(a.send(b"one").unwrap(), NonBlock::Ready(3));
    assert_eq!(a.send(b"three").unwrap(), NonBlock::Ready(5));

    let ev = wait_for(&mut poll, Token(6));
    assert!(ev.is_readable());

    // each receive yields exactly one datagram
    let mut buf: Vec<u8> = Vec::new();
    assert_eq!(b.recv(&mut buf, 64).unwrap(), NonBlock::Ready(3));
    assert_eq!(buf, b"one".to_vec());
    assert_eq!(b.recv(&mut buf, 64).unwrap(), NonBlock::Ready(5));
    assert_eq!(buf, b"three".to_vec());
    assert_eq!(b.recv(&mut buf, 64).unwrap(), NonBlock::WouldBlock);
}

fn assert_send<T: Send>() {}
fn assert_sync<T: Sync>() {}

#[test]
fn is_send_and_sync() {
    assert_send::<UnixListener>();
    assert_sync::<UnixListener>();

    assert_send::<UnixStream>();
    assert_sync::<UnixStream>();
}

#[test]
fn handles_are_send_and_sync() {
    assert_send::<mio::SetReadiness>();
    assert_sync::<mio::SetReadiness>();

    assert_send::<mio::Waker>();
    assert_sync::<mio::Waker>();
}
