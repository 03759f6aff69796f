//! The decisions of `sendfile`: which part of a file a range names, and the loop
//! that sends it call after call until all of it is sent or the file ends.

use vstd::prelude::*;
use crate::event::{count_event, lemma_total_step, spec_count_after, spec_flow, spec_transferred_total, Event, Flow};

verus! {

/// One end of a range of byte offsets, as `std::ops::Bound` gives it.
#[derive(Clone, Copy, Debug, PartialEq, Eq, Structural)]
pub enum RangeBound {
    Included(usize),
    Excluded(usize),
    Unbounded,
}

/// The offset that a range starts at: the bound's value whether it is included
/// or excluded, or 0 when there is none.
pub open spec fn spec_range_offset(start: RangeBound) -> usize {
    match start {
        RangeBound::Included(x) => x,
        RangeBound::Excluded(x) => x,
        RangeBound::Unbounded => 0,
    }
}

/// Whether the length of a range can be computed without an arithmetic overflow:
/// an excluded end is not before the offset, an included end is not the largest
/// `usize` and the byte after it is not before the offset.
pub open spec fn spec_range_computable(start: RangeBound, end: RangeBound) -> bool {
    let offset = spec_range_offset(start);
    match end {
        RangeBound::Excluded(y) => offset <= y,
        RangeBound::Included(y) => y < usize::MAX && offset <= y + 1,
        RangeBound::Unbounded => true,
    }
}

/// The number of bytes that a range asks for: up to an excluded end, up to and
/// including an included end, or the length of the file when there is no end
/// (whatever the offset).
pub open spec fn spec_range_len(start: RangeBound, end: RangeBound, file_len: u64) -> int {
    let offset = spec_range_offset(start);
    match end {
        RangeBound::Excluded(y) => y - offset,
        RangeBound::Included(y) => y + 1 - offset,
        RangeBound::Unbounded => (file_len as usize) as int,
    }
}

/// Whether `resolve_range` can compute the length of this range.
pub fn range_computable(start: RangeBound, end: RangeBound) -> (r: bool)
    ensures
        r == spec_range_computable(start, end),
        end matches RangeBound::Excluded(y) ==> (r <==> spec_range_offset(start) <= y),
        end matches RangeBound::Included(y) ==> (r <==> y < usize::MAX && spec_range_offset(start) <= y + 1),
        end is Unbounded ==> r,
{
    let offset = match start {
        RangeBound::Included(x) => x,
        RangeBound::Excluded(x) => x,
        RangeBound::Unbounded => 0,
    };
    match end {
        RangeBound::Excluded(y) => offset <= y,
        RangeBound::Included(y) => y < usize::MAX && offset <= y + 1,
        RangeBound::Unbounded => true,
    }
}

/// The offset to send from and the number of bytes to send for a range; the
/// file's length matters, and must be given, only when the range has no end.
pub fn resolve_range(start: RangeBound, end: RangeBound, file_len: Option<u64>) -> (r: (usize, usize))
    requires
        spec_range_computable(start, end),
        end is Unbounded ==> file_len is Some,
    ensures
        r.0 == spec_range_offset(start),
        r.1 == spec_range_len(start, end, file_len.unwrap_or(0)),
        start matches RangeBound::Included(x) ==> r.0 == x,
        start matches RangeBound::Excluded(x) ==> r.0 == x,
        start is Unbounded ==> r.0 == 0,
        end matches RangeBound::Excluded(y) ==> r.0 + r.1 == y,
        end matches RangeBound::Included(y) ==> r.0 + r.1 == y + 1,
        end is Unbounded ==> (file_len matches Some(n) && r.1 == n as usize),
{
    let offset = match start {
        RangeBound::Included(x) => x,
        RangeBound::Excluded(x) => x,
        RangeBound::Unbounded => 0,
    };
    let len = match end {
        RangeBound::Excluded(y) => y - offset,
        RangeBound::Included(y) => y + 1 - offset,
        RangeBound::Unbounded => match file_len {
            Some(n) => n as usize,
            None => 0,
        },
    };
    (offset, len)
}

/// The state of a `sendfile` transfer.
pub struct Sendfile {
    len: usize,
    count: usize,
}

/// The request that follows: the bytes still to send, or none once the count has
/// reached the length (the transfer then finishes with the count).
pub open spec fn spec_sendfile_request(len: int, sent: int) -> Option<usize> {
    if len > sent {
        Some((len - sent) as usize)
    } else {
        None
    }
}

impl Sendfile {
    /// The number of bytes to send.
    pub closed spec fn target(&self) -> usize {
        self.len
    }

    /// The number of bytes sent so far.
    pub closed spec fn sent(&self) -> usize {
        self.count
    }

    /// A transfer of `len` bytes.
    pub fn new(len: usize) -> (s: Sendfile)
        ensures
            s.target() == len,
            s.sent() == 0,
    {
        Sendfile { len, count: 0 }
    }

    /// The number of bytes sent so far.
    pub fn count(&self) -> (r: usize)
        ensures
            r == self.sent(),
    {
        self.count
    }

    /// The number of bytes that the next `sendfile` call asks for, or `None` when
    /// the transfer is over and returns `count()`.
    pub fn next_request(&self) -> (r: Option<usize>)
        ensures
            r == spec_sendfile_request(self.target() as int, self.sent() as int),
            r is None <==> self.sent() >= self.target(),
            r matches Some(k) ==> k == self.target() - self.sent(),
    {
        if self.len > self.count {
            Some(self.len - self.count)
        } else {
            None
        }
    }

    /// Takes in what a `sendfile` call reported.
    pub fn on_event(&mut self, ev: Event) -> (flow: Flow)
        requires
            spec_count_after(old(self).sent() as int, ev) <= usize::MAX,
        ensures
            flow == spec_flow(old(self).sent() as int, ev),
            final(self).sent() == spec_count_after(old(self).sent() as int, ev),
            ev matches Event::Transferred(n) ==> final(self).sent() == old(self).sent() + n,
            !(ev is Transferred) ==> final(self).sent() == old(self).sent(),
            final(self).target() == old(self).target(),
    {
        count_event(&mut self.count, ev)
    }
}

/// How a `sendfile` transfer of `len` bytes that has sent `sent` goes on when
/// its calls report `evs` in turn, by `spec_sendfile_request`,
/// `spec_flow` and `spec_count_after`: its result, or `None` when it is
/// still running after them.
pub open spec fn spec_sendfile_run(len: int, sent: int, evs: Seq<Event>) -> Option<Result<int, i32>>
    decreases evs.len(),
{
    if spec_sendfile_request(len, sent) is None {
        Some(Ok(sent))
    } else if evs.len() == 0 {
        None
    } else {
        match spec_flow(sent, evs[0]) {
            Flow::Finished(Ok(_)) => Some(Ok(sent)),
            Flow::Finished(Err(code)) => Some(Err(code)),
            _ => spec_sendfile_run(len, spec_count_after(sent, evs[0]), evs.drop_first()),
        }
    }
}

/// Every call that the transfer takes in reports no more bytes than it asked for.
pub open spec fn spec_within_requests(len: int, sent: int, evs: Seq<Event>) -> bool
    decreases evs.len(),
{
    if spec_sendfile_request(len, sent) is None || evs.len() == 0 {
        true
    } else {
        &&& (evs[0] matches Event::Transferred(n) ==> sent + n <= len)
        &&& (spec_flow(sent, evs[0]) is Finished
            || spec_within_requests(len, spec_count_after(sent, evs[0]), evs.drop_first()))
    }
}

/// When every call sends no more than it was asked for, `sendfile` never reports
/// more than the length of the range, and unless a call reports the end of the
/// file (zero bytes) it reports exactly that length.
pub proof fn lemma_sendfile_sends_range(len: usize, evs: Seq<Event>)
    requires
        spec_within_requests(len as int, 0, evs),
    ensures
        spec_sendfile_run(len as int, 0, evs) matches Some(Ok(count)) ==> {
            &&& count <= len
            &&& (forall|k: int| 0 <= k < evs.len() ==> #[trigger] evs[k] != Event::Transferred(0))
                ==> count == len
        },
{
    lemma_sendfile_run_bounded(len as int, 0, evs);
}

proof fn lemma_sendfile_run_bounded(len: int, sent: int, evs: Seq<Event>)
    requires
        0 <= sent <= len,
        spec_within_requests(len, sent, evs),
    ensures
        spec_sendfile_run(len, sent, evs) matches Some(Ok(count)) ==> {
            &&& count <= len
            &&& (forall|k: int| 0 <= k < evs.len() ==> #[trigger] evs[k] != Event::Transferred(0))
                ==> count == len
        },
    decreases evs.len(),
{
    if spec_sendfile_request(len, sent) is None || evs.len() == 0 {
    } else if spec_flow(sent, evs[0]) is Finished {
    } else {
        let next = spec_count_after(sent, evs[0]);
        lemma_sendfile_run_bounded(len, next, evs.drop_first());
        if forall|k: int| 0 <= k < evs.len() ==> #[trigger] evs[k] != Event::Transferred(0) {
            assert forall|k: int| 0 <= k < evs.drop_first().len() implies
                #[trigger] evs.drop_first()[k] != Event::Transferred(0) by {
                assert(evs.drop_first()[k] == evs[k + 1]);
            }
        }
    }
}

/// A range names the bytes from its start bound's value (0 without one) up to an
/// excluded end, or through an included end; without an end it names as many
/// bytes as the file holds, whatever the offset.
pub proof fn lemma_range_names_bytes(x: usize, y: usize, file_len: u64)
    ensures
        spec_range_offset(RangeBound::Included(x)) == x,
        spec_range_offset(RangeBound::Excluded(x)) == x,
        spec_range_offset(RangeBound::Unbounded) == 0,
        x <= y ==> spec_range_computable(RangeBound::Included(x), RangeBound::Excluded(y))
            && x + spec_range_len(RangeBound::Included(x), RangeBound::Excluded(y), file_len) == y,
        y < x ==> !spec_range_computable(RangeBound::Included(x), RangeBound::Excluded(y)),
        x <= y < usize::MAX ==> spec_range_computable(RangeBound::Included(x), RangeBound::Included(y))
            && x + spec_range_len(RangeBound::Included(x), RangeBound::Included(y), file_len) == y + 1,
        !spec_range_computable(RangeBound::Unbounded, RangeBound::Included(usize::MAX)),
        spec_range_len(RangeBound::Included(x), RangeBound::Unbounded, file_len) == (file_len as usize) as int,
{
}

/// The count that `sendfile` returns is the total of the bytes that its calls
/// reported: when the calls report `evs` in turn and the transfer finishes with
/// `Ok(count)`, `count` is the sum of the byte counts of the events it took in
/// (the first `k` of them).
pub proof fn lemma_sendfile_returns_total(len: usize, evs: Seq<Event>)
    ensures
        spec_sendfile_run(len as int, 0, evs) matches Some(Ok(count)) ==>
            exists|k: int| 0 <= k <= evs.len() && count == spec_transferred_total(#[trigger] evs.take(k)),
{
    lemma_sendfile_run_total(len as int, 0, evs);
}

proof fn lemma_sendfile_run_total(len: int, sent: int, evs: Seq<Event>)
    ensures
        spec_sendfile_run(len, sent, evs) matches Some(Ok(count)) ==>
            exists|k: int| 0 <= k <= evs.len() && count == sent + spec_transferred_total(#[trigger] evs.take(k)),
    decreases evs.len(),
{
    if let Some(Ok(count)) = spec_sendfile_run(len, sent, evs) {
        if spec_sendfile_request(len, sent) is None || spec_flow(sent, evs[0]) is Finished {
            assert(evs.take(0) =~= Seq::<Event>::empty());
            assert(count == sent + spec_transferred_total(evs.take(0)));
        } else {
            let next = spec_count_after(sent, evs[0]);
            lemma_sendfile_run_total(len, next, evs.drop_first());
            let k = choose|k: int| 0 <= k <= evs.drop_first().len()
                && count == next + spec_transferred_total(#[trigger] evs.drop_first().take(k));
            lemma_total_step(evs, k);
            assert(count == sent + spec_transferred_total(evs.take(k + 1)));
        }
    }
}

/// A transfer asks for another call exactly while it has sent less than the
/// length, and each call asks for the bytes still to send.
pub proof fn lemma_sendfile_request_is_rest(len: int, sent: int)
    ensures
        spec_sendfile_request(len, sent) is None <==> sent >= len,
        sent < len ==> spec_sendfile_request(len, sent) == Some((len - sent) as usize),
{
}

} // verus!
