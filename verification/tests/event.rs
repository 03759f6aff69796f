use tokio_linux_zio::event::{single_step, would_block, Event, Step};
use tokio_linux_zio::pipe::pipe_ends;

#[test]
fn raw_minus_one_with_eagain_would_block() {
    assert_eq!(Event::from_raw(-1, 11), Event::WouldBlock);
}

#[test]
fn raw_minus_one_with_other_code_fails() {
    assert_eq!(Event::from_raw(-1, 32), Event::Failed(32));
    assert_eq!(Event::from_raw(-1, 9), Event::Failed(9));
}

#[test]
fn raw_count_is_transferred() {
    assert_eq!(Event::from_raw(12, 0), Event::Transferred(12));
    assert_eq!(Event::from_raw(0, 11), Event::Transferred(0));
}

#[test]
fn would_block_codes() {
    assert!(would_block(11));
    assert!(!would_block(4));
    assert!(!would_block(0));
}

#[test]
fn result_events() {
    assert_eq!(Event::from_result(Ok(7)), Event::Transferred(7));
    assert_eq!(Event::from_result(Err(11)), Event::WouldBlock);
    assert_eq!(Event::from_result(Err(104)), Event::Failed(104));
    assert_eq!(Event::from_error(11), Event::WouldBlock);
    assert_eq!(Event::from_error(22), Event::Failed(22));
}

#[test]
fn single_step_reports_first_real_outcome() {
    assert_eq!(single_step(Event::Transferred(12)), Step::Finished(Ok(12)));
    assert_eq!(single_step(Event::Transferred(0)), Step::Finished(Ok(0)));
    assert_eq!(single_step(Event::WouldBlock), Step::Wait);
    assert_eq!(single_step(Event::Failed(5)), Step::Finished(Err(5)));
}

#[test]
fn tee_of_hello_world_reports_its_length() {
    // a tee of the 12 bytes of "hello world!" reports 12 once the call goes through
    let input = b"hello world!";
    assert_eq!(single_step(Event::from_raw(-1, 11)), Step::Wait);
    assert_eq!(
        single_step(Event::from_raw(input.len() as isize, 0)),
        Step::Finished(Ok(input.len()))
    );
}

#[test]
fn pipe_ends_read_then_write() {
    assert_eq!(pipe_ends(0, [3, 4], 0), Ok((3, 4)));
    assert_eq!(pipe_ends(-1, [0, 0], 24), Err(24));
}
