use tokio_linux_zio::event::{Event, Flow};
use tokio_linux_zio::splice::Splice;

#[test]
fn splice_without_length_runs_to_end_of_input() {
    let expected = "hello world";
    let mut s = Splice::new(None);
    assert_eq!(s.next_request(), Some(4096));
    assert_eq!(s.on_event(Event::WouldBlock), Flow::Wait);
    assert_eq!(s.count(), 0);
    assert_eq!(s.on_event(Event::Transferred(6)), Flow::Continue);
    assert_eq!(s.next_request(), Some(4096));
    assert_eq!(s.on_event(Event::Transferred(5)), Flow::Continue);
    assert_eq!(s.count(), expected.len());
    assert_eq!(s.on_event(Event::Transferred(0)), Flow::Finished(Ok(11)));
}

#[test]
fn splice_with_zero_length_does_nothing() {
    let s = Splice::new(Some(0));
    assert_eq!(s.next_request(), None);
    assert_eq!(s.count(), 0);
}

#[test]
fn splice_with_length_stops_at_it() {
    let mut s = Splice::new(Some(10));
    assert_eq!(s.next_request(), Some(10));
    assert_eq!(s.on_event(Event::Transferred(4)), Flow::Continue);
    // each call asks for the whole length again
    assert_eq!(s.next_request(), Some(10));
    assert_eq!(s.on_event(Event::Transferred(6)), Flow::Continue);
    assert_eq!(s.next_request(), None);
    assert_eq!(s.count(), 10);
}

#[test]
fn splice_error_ends_it() {
    let mut s = Splice::new(None);
    assert_eq!(s.on_event(Event::Transferred(3)), Flow::Continue);
    assert_eq!(s.on_event(Event::Failed(32)), Flow::Finished(Err(32)));
    assert_eq!(s.count(), 3);
}
