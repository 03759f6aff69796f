use bytes::Bytes;
use tokio_linux_zio::event::Event;
use tokio_linux_zio::tcpsink::{item_len, AsyncSink, Completion, ErrQueueMessage, SendPlan, SinkError, TcpSink};

fn zerocopy_message() -> ErrQueueMessage {
    ErrQueueMessage { cmsg_level: 0, cmsg_type: 11, ee_errno: 0, ee_origin: 5, ee_info: 3, ee_data: 7 }
}

#[test]
fn sink_new_follows_setsockopt() {
    let sink = TcpSink::new(7u8, 0, 0).ok().unwrap();
    assert!(sink.as_ref().is_empty());
    let (io, buf) = sink.into_inner();
    assert_eq!(io, 7u8);
    assert!(buf.is_empty());
    assert_eq!(TcpSink::new(7u8, -1, 92).err(), Some(92));
}

#[test]
fn empty_item_is_taken_at_once() {
    assert_eq!(TcpSink::start_send(Bytes::new()), SendPlan::Ready);
    let item = Bytes::from_static(b"hello");
    assert_eq!(TcpSink::start_send(item.clone()), SendPlan::Send(item));
}

#[test]
fn whole_and_partial_sends() {
    let mut sink = TcpSink::new((), 0, 0).ok().unwrap();
    let items = [Bytes::from_static(&[10u8]), Bytes::from_static(b"hello")];
    for item in items.iter() {
        let r = sink.sent(item.clone(), Event::Transferred(item.len())).unwrap();
        assert_eq!(r, AsyncSink::Ready);
    }
    assert_eq!(sink.as_ref(), &items[..]);

    let r = sink.sent(Bytes::from_static(b"world"), Event::Transferred(2)).unwrap();
    assert_eq!(r, AsyncSink::NotReady(Bytes::from_static(b"wo")));
    assert_eq!(sink.as_ref().len(), 3);
    assert_eq!(sink.as_ref()[2], Bytes::from_static(b"rld"));
}

#[test]
fn unsent_item_is_handed_back() {
    let mut sink = TcpSink::new((), 0, 0).ok().unwrap();
    let item = Bytes::from_static(b"world");
    assert_eq!(sink.sent(item.clone(), Event::Transferred(0)).unwrap(), AsyncSink::NotReady(item.clone()));
    assert_eq!(sink.sent(item.clone(), Event::WouldBlock).unwrap(), AsyncSink::NotReady(item.clone()));
    assert_eq!(sink.sent(item, Event::Failed(104)), Err(104));
    assert!(sink.as_ref().is_empty());
}

#[test]
fn completion_of_zerocopy_notification() {
    let msg = zerocopy_message();
    assert_eq!(TcpSink::poll_complete(Event::Transferred(0), msg), Ok(Completion::Ready { info: 3, data: 7 }));
    let v6 = ErrQueueMessage { cmsg_level: 41, cmsg_type: 25, ..msg };
    assert_eq!(TcpSink::poll_complete(Event::Transferred(0), v6), Ok(Completion::Ready { info: 3, data: 7 }));
}

#[test]
fn completion_not_ready_or_failed() {
    let msg = zerocopy_message();
    assert_eq!(TcpSink::poll_complete(Event::WouldBlock, msg), Ok(Completion::NotReady));
    assert_eq!(TcpSink::poll_complete(Event::Failed(9), msg), Err(SinkError::Os(9)));
}

#[test]
fn completion_rejects_other_messages() {
    let msg = zerocopy_message();
    let wrong_level = ErrQueueMessage { cmsg_level: 1, ..msg };
    assert_eq!(TcpSink::poll_complete(Event::Transferred(0), wrong_level), Err(SinkError::Other));
    let mixed = ErrQueueMessage { cmsg_level: 0, cmsg_type: 25, ..msg };
    assert_eq!(TcpSink::poll_complete(Event::Transferred(0), mixed), Err(SinkError::Other));
    let with_error = ErrQueueMessage { ee_errno: 5, ..msg };
    assert_eq!(TcpSink::poll_complete(Event::Transferred(0), with_error), Err(SinkError::Other));
    let other_origin = ErrQueueMessage { ee_origin: 2, ..msg };
    assert_eq!(TcpSink::poll_complete(Event::Transferred(0), other_origin), Err(SinkError::Other));
}

#[test]
fn item_len_counts_bytes() {
    assert_eq!(item_len(&Bytes::from_static(b"hello")), 5);
    assert_eq!(item_len(&Bytes::new()), 0);
}

#[test]
fn into_inner_round_trip() {
    let sink = TcpSink::new(3u8, 0, 0).ok().unwrap();
    assert_eq!(sink.into_inner(), (3u8, Vec::<Bytes>::new()));

    let mut sink = TcpSink::new(3u8, 0, 0).ok().unwrap();
    let hello = Bytes::from_static(b"hello");
    let world = Bytes::from_static(b"world");
    assert_eq!(sink.sent(hello.clone(), Event::Transferred(item_len(&hello))).unwrap(), AsyncSink::Ready);
    assert_eq!(sink.sent(world.clone(), Event::WouldBlock).unwrap(), AsyncSink::NotReady(world.clone()));
    assert_eq!(sink.sent(world, Event::Transferred(3)).unwrap(), AsyncSink::NotReady(Bytes::from_static(b"wor")));
    let shown = sink.as_ref().to_vec();
    let (io, kept) = sink.into_inner();
    assert_eq!(io, 3u8);
    assert_eq!(kept, shown);
    assert_eq!(kept, vec![hello, Bytes::from_static(b"ld")]);
}
