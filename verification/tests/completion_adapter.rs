use mio::CompletionSock;
use mio::Interest;
use mio::MioError;
use mio::NonBlock;
use mio::PortAction;

#[test]
fn schedule_complete_read_cycle() {
    let mut sock = CompletionSock::new(true, true);

    assert_eq!(sock.schedule_read(), PortAction::IssueRead);
    // already pending: nothing further to issue
    assert_eq!(sock.schedule_read(), PortAction::Idle);

    // while the read is in flight, reading would block
    let (r, action) = sock.user_read(16);
    assert_eq!(r, Ok(NonBlock::WouldBlock));
    assert_eq!(action, PortAction::Idle);

    let publish = sock.complete_read(Ok(b"abc".to_vec()));
    assert!(publish.is_readable());
    assert!(!publish.is_hup());

    // the payload is consumed and the next read is issued at once
    let (r, action) = sock.user_read(16);
    assert_eq!(r, Ok(NonBlock::Ready(b"abc".to_vec())));
    assert_eq!(action, PortAction::IssueRead);

    let (r, action) = sock.user_read(16);
    assert_eq!(r, Ok(NonBlock::WouldBlock));
    assert_eq!(action, PortAction::Idle);
}

#[test]
fn partial_read_keeps_the_remainder() {
    let mut sock = CompletionSock::new(true, true);
    assert_eq!(sock.schedule_read(), PortAction::IssueRead);
    sock.complete_read(Ok(b"hello".to_vec()));

    let (r, action) = sock.user_read(2);
    assert_eq!(r, Ok(NonBlock::Ready(b"he".to_vec())));
    assert_eq!(action, PortAction::Idle);

    let (r, action) = sock.user_read(16);
    assert_eq!(r, Ok(NonBlock::Ready(b"llo".to_vec())));
    assert_eq!(action, PortAction::IssueRead);
}

#[test]
fn zero_byte_stream_read_reports_hangup() {
    let mut sock = CompletionSock::new(true, true);
    assert_eq!(sock.schedule_read(), PortAction::IssueRead);

    let publish = sock.complete_read(Ok(Vec::new()));
    assert!(publish.is_readable());
    assert!(publish.is_hup());

    // a datagram socket reports no hangup for an empty datagram
    let mut dgram = CompletionSock::new(false, true);
    assert_eq!(dgram.schedule_read(), PortAction::IssueRead);
    let publish = dgram.complete_read(Ok(Vec::new()));
    assert!(publish.is_readable());
    assert!(!publish.is_hup());
}

#[test]
fn oversized_datagram_is_never_truncated() {
    let mut sock = CompletionSock::new(false, true);
    assert_eq!(sock.schedule_read(), PortAction::IssueRead);
    sock.complete_read(Ok(b"hello world".to_vec()));

    let (r, action) = sock.user_recv(4);
    assert_eq!(r, Err(MioError::Os(10040)));
    assert_eq!(action, PortAction::Idle);

    // the datagram stayed buffered and comes out whole
    let (r, action) = sock.user_recv(64);
    assert_eq!(r, Ok(NonBlock::Ready(b"hello world".to_vec())));
    assert_eq!(action, PortAction::IssueRead);
}

#[test]
fn one_outstanding_write_at_a_time() {
    let mut sock = CompletionSock::new(true, true);

    let (r, action) = sock.user_write(7);
    assert_eq!(r, NonBlock::Ready(7));
    assert_eq!(action, PortAction::IssueWrite);

    let (r, action) = sock.user_write(3);
    assert_eq!(r, NonBlock::WouldBlock);
    assert_eq!(action, PortAction::Idle);

    let publish = sock.complete_write();
    assert!(publish.is_writable());

    let (r, action) = sock.user_write(3);
    assert_eq!(r, NonBlock::Ready(3));
    assert_eq!(action, PortAction::IssueWrite);
}

#[test]
fn registration_latches_writability() {
    let mut sock = CompletionSock::new(true, true);
    let (action, publish) = sock.post_register(Interest::readable().union(Interest::writable()));
    assert_eq!(action, PortAction::IssueRead);
    assert!(publish.is_writable());
    assert!(!publish.is_readable());

    // with a write in flight nothing is latched
    let mut busy = CompletionSock::new(true, true);
    busy.user_write(1);
    let (_, publish) = busy.post_register(Interest::writable());
    assert_eq!(publish.bits(), 0);
}

#[test]
fn read_error_is_handed_out_once() {
    let mut sock = CompletionSock::new(true, true);
    assert_eq!(sock.schedule_read(), PortAction::IssueRead);

    let publish = sock.complete_read(Err(104));
    assert!(publish.is_readable());

    let (r, action) = sock.user_read(16);
    assert_eq!(r, Err(MioError::Os(104)));
    assert_eq!(action, PortAction::IssueRead);

    let (r, _) = sock.user_read(16);
    assert_eq!(r, Ok(NonBlock::WouldBlock));
}

#[test]
fn unbound_socket_issues_nothing() {
    let mut sock = CompletionSock::new(true, false);
    assert_eq!(sock.schedule_read(), PortAction::Idle);

    let (r, action) = sock.user_write(5);
    assert_eq!(r, NonBlock::WouldBlock);
    assert_eq!(action, PortAction::Idle);
}
