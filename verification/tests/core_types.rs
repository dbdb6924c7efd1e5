use mio::Interest;
use mio::IoEvent;
use mio::MioError;
use mio::NonBlock;
use mio::PollOpt;
use mio::ReadHint;
use mio::Token;

#[test]
fn pollopt_constructors_and_queries() {
    assert_eq!(PollOpt::edge().bits(), 0x020);
    assert_eq!(PollOpt::level().bits(), 0x040);
    assert_eq!(PollOpt::oneshot().bits(), 0x080);
    assert_eq!(PollOpt::empty().bits(), 0);
    assert_eq!(PollOpt::all().bits(), 0x0e0);

    assert!(PollOpt::edge().is_edge());
    assert!(!PollOpt::edge().is_level());
    assert!(!PollOpt::edge().is_oneshot());
    assert!(PollOpt::level().is_level());
    assert!(PollOpt::oneshot().is_oneshot());
    assert!(PollOpt::all().is_edge());
    assert!(PollOpt::all().is_level());
    assert!(PollOpt::all().is_oneshot());
}

#[test]
fn pollopt_insert_remove_contains() {
    let mut opt = PollOpt::edge();
    assert!(opt.contains(PollOpt::edge()));
    assert!(!opt.contains(PollOpt::oneshot()));

    opt.insert(PollOpt::oneshot());
    assert!(opt.is_edge());
    assert!(opt.is_oneshot());
    assert!(opt.contains(PollOpt::edge().union(PollOpt::oneshot())));

    opt.remove(PollOpt::edge());
    assert!(!opt.is_edge());
    assert!(opt.is_oneshot());
    assert_eq!(opt.bits(), 0x080);
}

#[test]
fn interest_constructors_and_queries() {
    assert_eq!(Interest::none().bits(), 0);
    assert_eq!(Interest::readable().bits(), 0x001);
    assert_eq!(Interest::writable().bits(), 0x002);
    assert_eq!(Interest::error().bits(), 0x004);
    assert_eq!(Interest::hup().bits(), 0x008);
    assert_eq!(Interest::hinted().bits(), 0x010);
    assert_eq!(Interest::all().bits(), 0x00f);

    assert!(Interest::readable().is_readable());
    assert!(!Interest::readable().is_writable());
    assert!(Interest::writable().is_writable());
    assert!(Interest::error().is_error());
    assert!(Interest::hup().is_hup());
    assert!(Interest::hinted().is_hinted());
    assert!(Interest::all().is_readable());
    assert!(Interest::all().is_writable());
    assert!(Interest::all().is_error());
    assert!(Interest::all().is_hup());
    assert!(!Interest::all().is_hinted());
}

#[test]
fn interest_insert_remove_union_intersect() {
    let mut set = Interest::readable();
    set.insert(Interest::writable());
    assert!(set.is_readable());
    assert!(set.is_writable());
    assert_eq!(set.bits(), 0x003);

    set.remove(Interest::readable());
    assert!(!set.is_readable());
    assert!(set.is_writable());

    let both = Interest::readable().union(Interest::hup());
    assert!(both.contains(Interest::readable()));
    assert!(both.contains(Interest::hup()));
    assert_eq!(both.intersect(Interest::hup()).bits(), 0x008);
    assert_eq!(both.intersect(Interest::writable()).bits(), 0);
}

#[test]
fn ioevent_token_and_kind() {
    let ev = IoEvent::new(Interest::readable().union(Interest::writable()), 17);
    assert_eq!(ev.token(), Token(17));
    assert_eq!(ev.events().bits(), 0x003);
    assert!(ev.is_readable());
    assert!(ev.is_writable());
    assert!(!ev.is_error());
}

#[test]
fn ioevent_hup_counts_as_readable() {
    let ev = IoEvent::new(Interest::hup(), 3);
    assert!(ev.is_readable());
    assert!(!ev.is_writable());
}

#[test]
fn read_hint_unhinted_is_empty() {
    let ev = IoEvent::new(Interest::readable().union(Interest::hup()), 0);
    assert_eq!(ev.read_hint(), ReadHint::empty());
}

#[test]
fn read_hint_collects_conditions() {
    let kind = Interest::hinted()
        .union(Interest::readable())
        .union(Interest::hup())
        .union(Interest::error());
    let hint = IoEvent::new(kind, 0).read_hint();
    assert!(hint.contains(ReadHint::data()));
    assert!(hint.contains(ReadHint::hup()));
    assert!(hint.contains(ReadHint::error()));
    assert_eq!(hint.union(ReadHint::empty()), hint);

    let readable_only = Interest::hinted().union(Interest::readable());
    let hint = IoEvent::new(readable_only, 0).read_hint();
    assert!(hint.contains(ReadHint::data()));
    assert!(!hint.contains(ReadHint::hup()));
    assert!(!hint.contains(ReadHint::error()));
}

#[test]
fn nonblock_shapes() {
    let ready: NonBlock<u32> = NonBlock::Ready(5);
    assert!(!ready.would_block());
    assert_eq!(ready.unwrap(), 5);

    let blocked: NonBlock<u32> = NonBlock::WouldBlock;
    assert!(blocked.would_block());
}

#[test]
fn error_classification() {
    assert!(MioError::WouldBlock.is_would_block());
    assert!(!MioError::Interrupted.is_would_block());
    assert!(!MioError::Os(5).is_would_block());
    assert_ne!(MioError::AlreadyRegistered, MioError::NotRegistered);
    assert!(!MioError::NotRegistered.describe().is_empty());
}

#[test]
fn events_container_basics() {
    let mut events = mio::Events::with_capacity(8);
    assert_eq!(events.capacity(), 8);
    assert_eq!(events.len(), 0);
    assert!(events.is_empty());
    events.clear();
    assert!(events.is_empty());
    assert_eq!(events.capacity(), 8);
}
