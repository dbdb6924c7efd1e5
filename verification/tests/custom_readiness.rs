use mio::CustomRegistration;
use mio::Interest;
use mio::MioError;
use mio::Poll;
use mio::PollOpt;
use mio::Token;
use mio::Waker;

#[test]
fn smoke() {
    let mut poll = Poll::with_capacity(128).unwrap();

    let (mut r, set) = CustomRegistration::new();
    poll.register_custom(&mut r, Token(0), Interest::readable(), PollOpt::edge())
        .unwrap();

    let n = poll.poll(Some(0)).unwrap();
    assert_eq!(n, 0);

    set.set_readiness(Interest::readable()).unwrap();

    let n = poll.poll(Some(0)).unwrap();
    assert_eq!(n, 1);
    assert_eq!(poll.event(0).token(), Token(0));
}

#[test]
fn set_readiness_before_register() {
    let mut poll = Poll::with_capacity(128).unwrap();

    let (mut r, set) = CustomRegistration::new();

    // readiness published before the source is registered anywhere
    set.set_readiness(Interest::readable()).unwrap();

    poll.register_custom(&mut r, Token(123), Interest::readable(), PollOpt::edge())
        .unwrap();

    // an unbounded wait: the pending publication must wake this poll
    let n = poll.poll(None).unwrap();
    assert_eq!(n, 1);
    assert_eq!(poll.event(0).token(), Token(123));
    assert!(poll.event(0).events().is_readable());
}

#[test]
fn edge_delivers_once_per_publication() {
    let mut poll = Poll::with_capacity(8).unwrap();
    let (mut r, set) = CustomRegistration::new();
    poll.register_custom(&mut r, Token(0), Interest::readable(), PollOpt::edge())
        .unwrap();

    set.set_readiness(Interest::readable()).unwrap();
    assert_eq!(poll.poll(Some(0)).unwrap(), 1);
    assert_eq!(poll.event(0).token(), Token(0));
    assert!(poll.event(0).events().is_readable());

    // edge: the publication was consumed
    assert_eq!(poll.poll(Some(0)).unwrap(), 0);

    // a new publication fires again
    set.set_readiness(Interest::readable()).unwrap();
    assert_eq!(poll.poll(Some(0)).unwrap(), 1);
}

#[test]
fn level_delivers_until_interests_change() {
    let mut poll = Poll::with_capacity(8).unwrap();
    let (mut r, set) = CustomRegistration::new();
    poll.register_custom(&mut r, Token(9), Interest::readable(), PollOpt::level())
        .unwrap();

    set.set_readiness(Interest::readable()).unwrap();

    for _ in 0..3 {
        let n = poll.poll(Some(0)).unwrap();
        assert_eq!(n, 1);
        assert_eq!(poll.event(0).token(), Token(9));
        assert!(poll.event(0).events().is_readable());
    }

    // the consumer updates interests: delivery stops
    poll.reregister_custom(&mut r, Token(9), Interest::writable(), PollOpt::level())
        .unwrap();
    assert_eq!(poll.poll(Some(0)).unwrap(), 0);
}

#[test]
fn oneshot_exhausts_until_reregister() {
    let mut poll = Poll::with_capacity(8).unwrap();
    let (mut r, set) = CustomRegistration::new();
    poll.register_custom(
        &mut r,
        Token(7),
        Interest::readable().union(Interest::writable()),
        PollOpt::edge().union(PollOpt::oneshot()),
    )
    .unwrap();

    set.set_readiness(Interest::readable()).unwrap();
    assert_eq!(poll.poll(Some(0)).unwrap(), 1);
    assert_eq!(poll.event(0).token(), Token(7));

    // disarmed: later publications are retained, not delivered
    set.set_readiness(Interest::readable()).unwrap();
    assert_eq!(poll.poll(Some(0)).unwrap(), 0);

    // reregister rearms; the retained readiness is observable once
    poll.reregister_custom(
        &mut r,
        Token(7),
        Interest::readable().union(Interest::writable()),
        PollOpt::edge().union(PollOpt::oneshot()),
    )
    .unwrap();
    assert_eq!(poll.poll(Some(0)).unwrap(), 1);
    assert_eq!(poll.event(0).token(), Token(7));
    assert_eq!(poll.poll(Some(0)).unwrap(), 0);
}

#[test]
fn deregister_silences_the_source() {
    let mut poll = Poll::with_capacity(8).unwrap();
    let (mut r, set) = CustomRegistration::new();
    poll.register_custom(&mut r, Token(4), Interest::readable(), PollOpt::level())
        .unwrap();

    set.set_readiness(Interest::readable()).unwrap();
    assert_eq!(poll.poll(Some(0)).unwrap(), 1);

    poll.deregister_custom(&mut r).unwrap();
    assert_eq!(poll.poll(Some(0)).unwrap(), 0);

    // publishing after deregistration delivers nothing either
    set.set_readiness(Interest::readable()).unwrap();
    assert_eq!(poll.poll(Some(0)).unwrap(), 0);
}

#[test]
fn custom_registration_misuse_errors() {
    let mut poll = Poll::with_capacity(8).unwrap();
    let (mut r, _set) = CustomRegistration::new();

    assert_eq!(
        poll.register_custom(&mut r, Token(0), Interest::none(), PollOpt::edge()),
        Err(MioError::InvalidInterest)
    );

    poll.register_custom(&mut r, Token(0), Interest::readable(), PollOpt::edge())
        .unwrap();
    assert_eq!(
        poll.register_custom(&mut r, Token(1), Interest::readable(), PollOpt::edge()),
        Err(MioError::AlreadyRegistered)
    );

    poll.deregister_custom(&mut r).unwrap();
    assert_eq!(poll.deregister_custom(&mut r), Err(MioError::NotRegistered));

    let (mut fresh, _s) = CustomRegistration::new();
    assert_eq!(
        poll.reregister_custom(&mut fresh, Token(0), Interest::readable(), PollOpt::edge()),
        Err(MioError::NotRegistered)
    );
}

#[test]
fn waker_wakes_the_next_poll() {
    let mut poll = Poll::with_capacity(8).unwrap();
    let waker = Waker::new(&poll, Token(42)).unwrap();

    // wake before the wait: the next unbounded poll must observe it
    waker.wake().unwrap();
    let n = poll.poll(None).unwrap();
    assert_eq!(n, 1);
    assert_eq!(poll.event(0).token(), Token(42));
    assert!(poll.event(0).events().is_readable());

    // several wakes may coalesce, but at least one event arrives
    waker.wake().unwrap();
    waker.wake().unwrap();
    let n = poll.poll(Some(100)).unwrap();
    assert!(n >= 1);
    assert_eq!(poll.event(0).token(), Token(42));
}

#[test]
fn small_events_capacity_retains_overflow() {
    let mut poll = Poll::with_capacity(2).unwrap();
    let mut handles = Vec::new();
    for i in 0..4 {
        let (mut r, set) = CustomRegistration::new();
        poll.register_custom(&mut r, Token(i), Interest::readable(), PollOpt::edge())
            .unwrap();
        set.set_readiness(Interest::readable()).unwrap();
        handles.push((r, set));
    }

    // four pending deliveries through a batch of two: nothing is lost
    let mut seen = [false; 4];
    let mut delivered = 0;
    while delivered < 4 {
        let n = poll.poll(Some(100)).unwrap();
        assert!(n <= 2);
        if n == 0 {
            break;
        }
        for i in 0..n {
            let t = poll.event(i).token().0;
            assert!(!seen[t]);
            seen[t] = true;
            delivered += 1;
        }
    }
    assert_eq!(delivered, 4);
}

#[test]
fn zero_capacity_poll_delivers_nothing() {
    let mut poll = Poll::with_capacity(0).unwrap();
    let (mut r, set) = CustomRegistration::new();
    poll.register_custom(&mut r, Token(1), Interest::readable(), PollOpt::level())
        .unwrap();
    set.set_readiness(Interest::readable()).unwrap();
    assert_eq!(poll.poll(Some(0)).unwrap(), 0);
}

#[test]
fn reserved_token_is_rejected() {
    let mut poll = Poll::with_capacity(8).unwrap();
    assert_eq!(
        Waker::new(&poll, Token(usize::MAX)).err(),
        Some(MioError::InvalidToken)
    );

    let (mut rd, _wr) = mio::pipe().unwrap();
    assert_eq!(
        poll.register(&mut rd, Token(usize::MAX), Interest::readable(), PollOpt::edge()),
        Err(MioError::InvalidToken)
    );
}
