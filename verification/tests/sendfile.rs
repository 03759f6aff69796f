use tokio_linux_zio::event::{Event, Flow};
use tokio_linux_zio::sendfile::{range_computable, resolve_range, RangeBound, Sendfile};

#[test]
fn range_one_to_thirty_three() {
    // 1..33: 32 bytes from offset 1
    assert_eq!(resolve_range(RangeBound::Included(1), RangeBound::Excluded(33), None), (1, 32));
    // 1..=32: the same bytes
    assert_eq!(resolve_range(RangeBound::Included(1), RangeBound::Included(32), None), (1, 32));
}

#[test]
fn range_start_excluded_counts_as_included() {
    assert_eq!(resolve_range(RangeBound::Excluded(5), RangeBound::Excluded(10), None), (5, 5));
}

#[test]
fn range_without_end_takes_file_length() {
    assert_eq!(resolve_range(RangeBound::Unbounded, RangeBound::Unbounded, Some(100)), (0, 100));
    assert_eq!(resolve_range(RangeBound::Included(10), RangeBound::Unbounded, Some(100)), (10, 100));
}

#[test]
fn range_computable_cases() {
    assert!(range_computable(RangeBound::Included(1), RangeBound::Excluded(33)));
    assert!(range_computable(RangeBound::Included(3), RangeBound::Excluded(3)));
    assert!(!range_computable(RangeBound::Included(4), RangeBound::Excluded(3)));
    assert!(range_computable(RangeBound::Included(4), RangeBound::Included(3)));
    assert!(!range_computable(RangeBound::Included(5), RangeBound::Included(3)));
    assert!(!range_computable(RangeBound::Unbounded, RangeBound::Included(usize::MAX)));
    assert!(range_computable(RangeBound::Included(usize::MAX), RangeBound::Unbounded));
}

#[test]
fn sendfile_sends_the_rest_each_time() {
    let mut s = Sendfile::new(32);
    assert_eq!(s.next_request(), Some(32));
    assert_eq!(s.on_event(Event::Transferred(10)), Flow::Continue);
    assert_eq!(s.next_request(), Some(22));
    assert_eq!(s.on_event(Event::WouldBlock), Flow::Wait);
    assert_eq!(s.next_request(), Some(22));
    assert_eq!(s.on_event(Event::Transferred(22)), Flow::Continue);
    assert_eq!(s.next_request(), None);
    assert_eq!(s.count(), 32);
}

#[test]
fn sendfile_stops_at_end_of_file() {
    let mut s = Sendfile::new(100);
    assert_eq!(s.on_event(Event::Transferred(40)), Flow::Continue);
    assert_eq!(s.on_event(Event::Transferred(0)), Flow::Finished(Ok(40)));
}

#[test]
fn sendfile_error_ends_it() {
    let mut s = Sendfile::new(8);
    assert_eq!(s.on_event(Event::Failed(32)), Flow::Finished(Err(32)));
    assert_eq!(s.count(), 0);
}

#[test]
fn sendfile_of_nothing_is_done() {
    let s = Sendfile::new(0);
    assert_eq!(s.next_request(), None);
}
