use mio::coalesce;
use mio::eof_readiness;
use mio::filter_delta;
use mio::FilterChange;
use mio::Interest;

#[test]
fn filter_delta_per_direction() {
    // read dropped, write added
    let (read, write) = filter_delta(Interest::readable(), Interest::writable());
    assert_eq!(read, FilterChange::Remove);
    assert_eq!(write, FilterChange::Add);

    // both survive a rebind
    let both = Interest::readable().union(Interest::writable());
    let (read, write) = filter_delta(both, both);
    assert_eq!(read, FilterChange::Mutate);
    assert_eq!(write, FilterChange::Mutate);

    // nothing subscribed before or after
    let (read, write) = filter_delta(Interest::none(), Interest::none());
    assert_eq!(read, FilterChange::Absent);
    assert_eq!(write, FilterChange::Absent);

    // quiescent rebind drops both directions
    let (read, write) = filter_delta(both, Interest::none());
    assert_eq!(read, FilterChange::Remove);
    assert_eq!(write, FilterChange::Remove);
}

#[test]
fn eof_classification() {
    assert!(eof_readiness(0).is_hup());
    assert!(!eof_readiness(0).is_error());
    assert!(eof_readiness(54).is_error());
    assert!(!eof_readiness(54).is_hup());
}

#[test]
fn coalesce_merges_same_identifier() {
    // one source reports read and write readiness as two native events
    let raw = vec![(7u64, 0x001usize), (9, 0x001), (7, 0x002)];
    let merged = coalesce(&raw);

    assert_eq!(merged.len(), 2);
    let seven = merged.iter().find(|e| e.0 == 7).unwrap();
    let nine = merged.iter().find(|e| e.0 == 9).unwrap();
    assert_eq!(seven.1, 0x003);
    assert_eq!(nine.1, 0x001);
}

#[test]
fn coalesce_keeps_distinct_identifiers() {
    let raw = vec![(1u64, 0x001usize), (2, 0x002), (3, 0x004)];
    let merged = coalesce(&raw);
    assert_eq!(merged.len(), 3);
    assert_eq!(merged, raw);
}

#[test]
fn coalesce_of_empty_batch_is_empty() {
    let raw: Vec<(u64, usize)> = Vec::new();
    assert!(coalesce(&raw).is_empty());
}
