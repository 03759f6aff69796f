//! A TCP sink that sends with `MSG_ZEROCOPY`: it keeps every chunk that the kernel
//! may still read from, and checks the completion notifications that the kernel
//! queues on the socket's error queue.

use vstd::prelude::*;
use bytes::Bytes;
use tokio::net::TcpStream;
use crate::event::Event;

verus! {

/// `SO_ZEROCOPY` socket option (`SOL_SOCKET` level).
pub const SO_ZEROCOPY: i32 = 60;
/// `MSG_ZEROCOPY` flag for `send`.
pub const MSG_ZEROCOPY: i32 = 0x4000000;
/// `ee_origin` of a zero-copy completion notification.
pub const SO_EE_ORIGIN_ZEROCOPY: u8 = 5;
/// `cmsg_type` of an IPv4 error-queue message.
pub const IP_RECVERR: i32 = 11;
/// `cmsg_type` of an IPv6 error-queue message.
pub const IPV6_RECVERR: i32 = 25;

#[verifier::external_type_specification]
#[verifier::external_body]
pub struct ExBytes(bytes::Bytes);

#[verifier::external_type_specification]
#[verifier::external_body]
pub struct ExTcpStream(tokio::net::TcpStream);

/// The bytes that a `Bytes` holds.
pub uninterp spec fn bytes_view(b: Bytes) -> Seq<u8>;

/// `Bytes::len`.
///
/// Trusted: returns the number of bytes that `b` holds.
#[verifier::external_body]
fn bytes_len(b: &Bytes) -> (r: usize)
    ensures
        r == bytes_view(*b).len(),
{
    b.len()
}

/// `Bytes::is_empty`.
///
/// Trusted: returns whether `b` holds no byte.
#[verifier::external_body]
fn bytes_is_empty(b: &Bytes) -> (r: bool)
    ensures
        r == (bytes_view(*b).len() == 0),
{
    b.is_empty()
}

/// `Bytes::split_off`.
///
/// Trusted: afterwards `b` holds the bytes before `at` and the result the bytes
/// from `at` on; it panics when `at` is past the end, which `requires` leaves out.
#[verifier::external_body]
fn bytes_split_off(b: &mut Bytes, at: usize) -> (tail: Bytes)
    requires
        at <= bytes_view(*old(b)).len(),
    ensures
        bytes_view(*final(b)) == bytes_view(*old(b)).take(at as int),
        bytes_view(tail) == bytes_view(*old(b)).skip(at as int),
{
    b.split_off(at)
}

/// `libc::SOL_IP` on Linux.
///
/// Trusted: returns the constant `libc::SOL_IP`, which the libc crate defines as 0
/// for Linux.
#[verifier::external_body]
fn sol_ip() -> (r: i32)
    ensures
        r == 0,
{
    libc::SOL_IP
}

/// `libc::SOL_IPV6` on Linux.
///
/// Trusted: returns the constant `libc::SOL_IPV6`, which the libc crate defines as 41
/// for Linux.
#[verifier::external_body]
fn sol_ipv6() -> (r: i32)
    ensures
        r == 41,
{
    libc::SOL_IPV6
}

/// A TCP stream that sends with `MSG_ZEROCOPY`, and the chunks that it keeps: each
/// item sent in whole, and, after a partial send, the part of the item that was
/// not sent (the sent part is handed back to the caller). The sink's decisions do not depend on the stream, which it only
/// carries: `S` is a tokio `TcpStream` unless another type is named.
pub struct TcpSink<S = TcpStream> {
    pub io: S,
    buf: Vec<Bytes>,
}

/// What `start_send` answers, as a futures `Sink` does.
#[derive(Debug, PartialEq, Eq)]
pub enum AsyncSink {
    /// The item was taken in whole.
    Ready,
    /// The sink could not take this item (or this part of it) yet.
    NotReady(Bytes),
}

/// What to do with an item that is offered to the sink.
#[derive(Debug, PartialEq, Eq)]
pub enum SendPlan {
    /// Nothing to send: the item is taken as it is.
    Ready,
    /// Send these bytes with `MSG_ZEROCOPY`, then report the outcome to
    /// `TcpSink::sent`.
    Send(Bytes),
}

/// Why the sink failed.
#[derive(Clone, Copy, Debug, PartialEq, Eq, Structural)]
pub enum SinkError {
    /// A system call failed with this error code.
    Os(i32),
    /// The error queue held something other than a zero-copy completion.
    Other,
}

/// What polling for completion found.
#[derive(Clone, Copy, Debug, PartialEq, Eq, Structural)]
pub enum Completion {
    /// No notification is queued yet.
    NotReady,
    /// A zero-copy completion notification, with its `ee_info` and `ee_data`.
    Ready { info: u32, data: u32 },
}

/// The fields of the first control message that `recvmsg(.., MSG_ERRQUEUE)` left
/// in its control buffer, and of the `sock_extended_err` that follows its header.
#[derive(Clone, Copy, Debug, PartialEq, Eq, Structural)]
pub struct ErrQueueMessage {
    pub cmsg_level: i32,
    pub cmsg_type: i32,
    pub ee_errno: u32,
    pub ee_origin: u8,
    pub ee_info: u32,
    pub ee_data: u32,
}

/// A control message comes from the error queue of an IPv4 or IPv6 socket.
pub open spec fn spec_is_recverr(msg: ErrQueueMessage) -> bool {
    ||| (msg.cmsg_level == 0 && msg.cmsg_type == IP_RECVERR)
    ||| (msg.cmsg_level == 41 && msg.cmsg_type == IPV6_RECVERR)
}

/// A queued extended error is a zero-copy completion that reports no error.
pub open spec fn spec_is_zerocopy_done(msg: ErrQueueMessage) -> bool {
    msg.ee_errno == 0 && msg.ee_origin == SO_EE_ORIGIN_ZEROCOPY
}

/// What `poll_complete` answers after `recvmsg` on the error queue reported `recv`
/// and left `msg` in the control buffer.
pub open spec fn spec_completion(recv: Event, msg: ErrQueueMessage) -> Result<Completion, SinkError> {
    match recv {
        Event::WouldBlock => Ok(Completion::NotReady),
        Event::Failed(code) => Err(SinkError::Os(code)),
        Event::Transferred(_) => {
            if !spec_is_recverr(msg) {
                Err(SinkError::Other)
            } else if !spec_is_zerocopy_done(msg) {
                Err(SinkError::Other)
            } else {
                Ok(Completion::Ready { info: msg.ee_info, data: msg.ee_data })
            }
        },
    }
}

/// The bytes that the sink keeps after `item` was sent and the call reported `ev`:
/// the whole item when all of it was sent, the part from the sent count on when
/// only some of it was, and no more than before otherwise.
pub open spec fn spec_kept_after(kept: Seq<Seq<u8>>, item: Seq<u8>, ev: Event) -> Seq<Seq<u8>> {
    match ev {
        Event::Transferred(n) => {
            if n == 0 {
                kept
            } else if n == item.len() {
                kept.push(item)
            } else {
                kept.push(item.skip(n as int))
            }
        },
        _ => kept,
    }
}

/// The bytes that a new sink keeps after sends of `items[i]` that reported
/// `evs[i]`, in turn.
pub open spec fn spec_kept_run(items: Seq<Seq<u8>>, evs: Seq<Event>) -> Seq<Seq<u8>>
    decreases items.len(),
{
    if items.len() == 0 || evs.len() == 0 {
        Seq::empty()
    } else {
        spec_kept_after(spec_kept_run(items.drop_last(), evs.drop_last()), items.last(), evs.last())
    }
}

/// The number of bytes that an item holds.
pub fn item_len(item: &Bytes) -> (r: usize)
    ensures
        r == bytes_view(*item).len(),
{
    bytes_len(item)
}

impl<S> TcpSink<S> {
    /// The chunks that the sink keeps, oldest first: each item sent in whole, and,
    /// after a partial send, the part of the item from the sent count on (the part
    /// that was not sent).
    pub closed spec fn in_flight(&self) -> Seq<Bytes> {
        self.buf@
    }

    /// The bytes of the chunks that the sink keeps, oldest first.
    pub open spec fn kept(&self) -> Seq<Seq<u8>> {
        self.in_flight().map_values(|b: Bytes| bytes_view(b))
    }

    /// The stream that the sink sends on.
    pub closed spec fn stream(&self) -> S {
        self.io
    }

    /// A sink on `io`, once `setsockopt(SO_ZEROCOPY)` on it returned `setsockopt_ret`
    /// (with `errno` the error code right after that call).
    pub fn new(io: S, setsockopt_ret: i32, errno: i32) -> (r: Result<TcpSink<S>, i32>)
        ensures
            (setsockopt_ret == -1) <==> r is Err,
            r matches Err(code) ==> code == errno,
            r matches Ok(sink) ==> sink.stream() == io && sink.in_flight() == Seq::<Bytes>::empty(),
    {
        if setsockopt_ret == -1 {
            Err(errno)
        } else {
            Ok(TcpSink { io, buf: Vec::new() })
        }
    }

    /// The chunks that the sink keeps: each item sent in whole, and, after a
    /// partial send, the part of the item that was not sent.
    pub fn as_ref(&self) -> (r: &[Bytes])
        ensures
            r@ == self.in_flight(),
    {
        self.buf.as_slice()
    }

    /// The stream and the chunks that the sink keeps: each item sent in whole,
    /// and, after a partial send, the part of the item that was not sent.
    pub fn into_inner(self) -> (r: (S, Vec<Bytes>))
        ensures
            r.0 == self.stream(),
            r.1@ == self.in_flight(),
    {
        (self.io, self.buf)
    }

    /// The second half of `start_send`: `item` was sent with `MSG_ZEROCOPY` and the
    /// call reported `ev`.
    ///
    /// A send of the whole item keeps it in flight and answers `Ready`. A send of
    /// part of it keeps the part from the sent count on in flight and answers
    /// `NotReady` with the part before it. A send of nothing, or a send that would
    /// block, hands the item back; any other error is returned.
    pub fn sent(&mut self, item: Bytes, ev: Event) -> (r: Result<AsyncSink, i32>)
        requires
            bytes_view(item).len() != 0,
            ev matches Event::Transferred(n) ==> n <= bytes_view(item).len(),
        ensures
            match ev {
                Event::Transferred(n) => {
                    if n == 0 {
                        &&& r == Ok::<AsyncSink, i32>(AsyncSink::NotReady(item))
                        &&& final(self).in_flight() == old(self).in_flight()
                    } else if n == bytes_view(item).len() {
                        &&& r == Ok::<AsyncSink, i32>(AsyncSink::Ready)
                        &&& final(self).in_flight() == old(self).in_flight().push(item)
                    } else {
                        &&& r matches Ok(AsyncSink::NotReady(head))
                        &&& bytes_view(head) == bytes_view(item).take(n as int)
                        &&& final(self).in_flight().len() == old(self).in_flight().len() + 1
                        &&& final(self).in_flight().drop_last() == old(self).in_flight()
                        &&& bytes_view(final(self).in_flight().last()) == bytes_view(item).skip(n as int)
                        &&& bytes_view(head) + bytes_view(final(self).in_flight().last()) == bytes_view(item)
                    }
                },
                Event::WouldBlock => {
                    &&& r == Ok::<AsyncSink, i32>(AsyncSink::NotReady(item))
                    &&& final(self).in_flight() == old(self).in_flight()
                },
                Event::Failed(code) => {
                    &&& r == Err::<AsyncSink, i32>(code)
                    &&& final(self).in_flight() == old(self).in_flight()
                },
            },
            final(self).kept() == spec_kept_after(old(self).kept(), bytes_view(item), ev),
            final(self).stream() == old(self).stream(),
    {
        let mut item = item;
        match ev {
            Event::Transferred(n) => {
                if n == 0 {
                    Ok(AsyncSink::NotReady(item))
                } else if bytes_len(&item) == n {
                    self.buf.push(item);
                    assert(self.kept() =~= old(self).kept().push(bytes_view(item)));
                    Ok(AsyncSink::Ready)
                } else {
                    let ghost whole = bytes_view(item);
                    let rest = bytes_split_off(&mut item, n);
                    assert(bytes_view(item) + bytes_view(rest) =~= whole);
                    self.buf.push(rest);
                    assert(self.kept() =~= old(self).kept().push(whole.skip(n as int)));
                    Ok(AsyncSink::NotReady(item))
                }
            },
            Event::WouldBlock => Ok(AsyncSink::NotReady(item)),
            Event::Failed(code) => Err(code),
        }
    }
}

impl TcpSink {
    /// The first half of `start_send`: an empty item is taken at once, any other
    /// is to be sent.
    pub fn start_send(item: Bytes) -> (r: SendPlan)
        ensures
            bytes_view(item).len() == 0 ==> r is Ready,
            bytes_view(item).len() != 0 ==> r == SendPlan::Send(item),
    {
        if bytes_is_empty(&item) {
            SendPlan::Ready
        } else {
            SendPlan::Send(item)
        }
    }

    /// `poll_complete`: `recvmsg(.., MSG_ERRQUEUE)` reported `recv` and left `msg` in
    /// its control buffer. A call that would block means no notification yet; any
    /// other failed call is an error. A message that is not an IPv4/IPv6 extended
    /// error, or an extended error that is not a successful zero-copy completion,
    /// is an error too.
    pub fn poll_complete(recv: Event, msg: ErrQueueMessage) -> (r: Result<Completion, SinkError>)
        ensures
            r == spec_completion(recv, msg),
            recv is WouldBlock ==> r == Ok::<Completion, SinkError>(Completion::NotReady),
            recv matches Event::Failed(code) ==> r == Err::<Completion, SinkError>(SinkError::Os(code)),
            recv is Transferred ==> (r is Ok <==> (
                ((msg.cmsg_level == 0 && msg.cmsg_type == 11) || (msg.cmsg_level == 41 && msg.cmsg_type == 25))
                && msg.ee_errno == 0 && msg.ee_origin == 5)),
            r is Ok && recv is Transferred ==>
                r == Ok::<Completion, SinkError>(Completion::Ready { info: msg.ee_info, data: msg.ee_data }),
            r is Err && recv is Transferred ==> r == Err::<Completion, SinkError>(SinkError::Other),
    {
        match recv {
            Event::WouldBlock => Ok(Completion::NotReady),
            Event::Failed(code) => Err(SinkError::Os(code)),
            Event::Transferred(_) => {
                let level = msg.cmsg_level;
                let kind = msg.cmsg_type;
                if !((level == sol_ip() && kind == IP_RECVERR)
                    || (level == sol_ipv6() && kind == IPV6_RECVERR)) {
                    return Err(SinkError::Other);
                }
                if msg.ee_errno != 0 || msg.ee_origin != SO_EE_ORIGIN_ZEROCOPY {
                    return Err(SinkError::Other);
                }
                Ok(Completion::Ready { info: msg.ee_info, data: msg.ee_data })
            },
        }
    }
}

/// After `recvmsg` on the error queue went through, a completion is reported
/// exactly for an IPv4 (`SOL_IP`, `IP_RECVERR`) or IPv6 (`SOL_IPV6`,
/// `IPV6_RECVERR`) extended error that carries no error and comes from zero-copy;
/// it hands on `ee_info` and `ee_data` as they are, whatever they are. Anything
/// else in the queue is `Other`.
pub proof fn lemma_completion_of_zerocopy(n: usize, msg: ErrQueueMessage)
    ensures
        (((msg.cmsg_level == 0 && msg.cmsg_type == 11) || (msg.cmsg_level == 41 && msg.cmsg_type == 25))
            && msg.ee_errno == 0 && msg.ee_origin == 5) ==>
            spec_completion(Event::Transferred(n), msg)
                == Ok::<Completion, SinkError>(Completion::Ready { info: msg.ee_info, data: msg.ee_data }),
        !(((msg.cmsg_level == 0 && msg.cmsg_type == 11) || (msg.cmsg_level == 41 && msg.cmsg_type == 25))
            && msg.ee_errno == 0 && msg.ee_origin == 5) ==>
            spec_completion(Event::Transferred(n), msg) == Err::<Completion, SinkError>(SinkError::Other),
        spec_completion(Event::WouldBlock, msg) == Ok::<Completion, SinkError>(Completion::NotReady),
{
}

/// Round trip: a sink made by `new` on `io`, then taken through sends of
/// `items[i]` that reported `evs[i]` in turn (`sinks[i]` before the send,
/// `sinks[i + 1]` after it), hands back from `into_inner` the same stream `io`
/// and the chunks that it keeps, in order: those that `spec_kept_run` gives. With
/// no send, these are none.
pub proof fn lemma_into_inner_round_trip<S>(
    io: S,
    sinks: Seq<TcpSink<S>>,
    items: Seq<Bytes>,
    evs: Seq<Event>,
    out: (S, Vec<Bytes>),
)
    requires
        items.len() == evs.len(),
        sinks.len() == items.len() + 1,
        sinks[0].stream() == io,
        sinks[0].in_flight() == Seq::<Bytes>::empty(),
        forall|i: int| 0 <= i < items.len() ==> {
            &&& (#[trigger] sinks[i + 1]).stream() == sinks[i].stream()
            &&& sinks[i + 1].kept() == spec_kept_after(sinks[i].kept(), bytes_view(items[i]), evs[i])
        },
        out.0 == sinks.last().stream(),
        out.1@ == sinks.last().in_flight(),
    ensures
        out.0 == io,
        out.1@.map_values(|b: Bytes| bytes_view(b)) == spec_kept_run(items.map_values(|b: Bytes| bytes_view(b)), evs),
        items.len() == 0 ==> out.1@ == Seq::<Bytes>::empty(),
{
    lemma_kept_run_prefix(io, sinks, items, evs);
    assert(out.1@.map_values(|b: Bytes| bytes_view(b)) =~= sinks.last().kept());
    if items.len() == 0 {
        assert(sinks.last() == sinks[0]);
    }
}

/// After the sends, the last sink still sends on `io` and keeps the bytes that
/// `spec_kept_run` gives.
proof fn lemma_kept_run_prefix<S>(io: S, sinks: Seq<TcpSink<S>>, items: Seq<Bytes>, evs: Seq<Event>)
    requires
        items.len() == evs.len(),
        sinks.len() == items.len() + 1,
        sinks[0].stream() == io,
        sinks[0].in_flight() == Seq::<Bytes>::empty(),
        forall|i: int| 0 <= i < items.len() ==> {
            &&& (#[trigger] sinks[i + 1]).stream() == sinks[i].stream()
            &&& sinks[i + 1].kept() == spec_kept_after(sinks[i].kept(), bytes_view(items[i]), evs[i])
        },
    ensures
        sinks.last().stream() == io,
        sinks.last().kept() == spec_kept_run(items.map_values(|b: Bytes| bytes_view(b)), evs),
    decreases items.len(),
{
    if items.len() == 0 {
        assert(sinks[0].kept() =~= Seq::<Seq<u8>>::empty());
    } else {
        let k = items.len() - 1;
        let prev = sinks.drop_last();
        assert forall|i: int| 0 <= i < items.drop_last().len() implies {
            &&& (#[trigger] prev[i + 1]).stream() == prev[i].stream()
            &&& prev[i + 1].kept() == spec_kept_after(prev[i].kept(), bytes_view(items.drop_last()[i]), evs.drop_last()[i])
        } by {
            assert(prev[i + 1] == sinks[i + 1]);
            assert(prev[i] == sinks[i]);
            assert(sinks[i + 1].stream() == sinks[i].stream());
        }
        lemma_kept_run_prefix(io, prev, items.drop_last(), evs.drop_last());
        assert(prev.last() == sinks[k]);
        assert(sinks[k + 1].stream() == sinks[k].stream());
        assert(items.map_values(|b: Bytes| bytes_view(b)).drop_last()
            =~= items.drop_last().map_values(|b: Bytes| bytes_view(b)));
        assert(items.map_values(|b: Bytes| bytes_view(b)).last() == bytes_view(items.last()));
    }
}

} // verus!
