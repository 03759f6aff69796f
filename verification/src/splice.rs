//! The decisions of `splice`: move bytes from one descriptor to another through
//! the kernel, call after call, until the input ends or, when a length is given,
//! until the count of bytes moved equals it. Every call asks for the whole length
//! again, so the count can pass the length; the transfer then runs on to the end
//! of the input.

use vstd::prelude::*;
use crate::event::{count_event, lemma_total_step, spec_count_after, spec_flow, spec_transferred_total, Event, Flow};

verus! {

/// `libc::PIPE_BUF` on Linux.
///
/// Trusted: returns the constant `libc::PIPE_BUF`, which the libc crate defines as
/// 4096 for Linux.
#[verifier::external_body]
fn pipe_buf() -> (r: usize)
    ensures
        r == 4096,
{
    libc::PIPE_BUF
}

/// The state of a `splice` transfer.
pub struct Splice {
    len: Option<usize>,
    count: usize,
}

/// The number of bytes that each `splice` call asks for: the length given (the
/// whole of it, whatever has been moved already), or `PIPE_BUF` when none is.
pub open spec fn spec_chunk(limit: Option<usize>) -> usize {
    match limit {
        Some(n) => n,
        None => 4096,
    }
}

/// The request that follows: none once the count has reached the length given
/// (the transfer then finishes with that count), else a call of `spec_chunk` bytes.
pub open spec fn spec_splice_request(limit: Option<usize>, moved: int) -> Option<usize> {
    if limit matches Some(n) && n == moved {
        None
    } else {
        Some(spec_chunk(limit))
    }
}

impl Splice {
    /// The length given, if any.
    pub closed spec fn limit(&self) -> Option<usize> {
        self.len
    }

    /// The number of bytes moved so far.
    pub closed spec fn moved(&self) -> usize {
        self.count
    }

    /// A transfer that stops at the end of the input or, when `len` is given, as
    /// soon as the count of bytes moved equals it (a count that passes it runs on
    /// to the end of the input); every call asks for the whole of `len`, or for
    /// `PIPE_BUF` bytes when `len` is `None`.
    pub fn new(len: Option<usize>) -> (s: Splice)
        ensures
            s.limit() == len,
            s.moved() == 0,
    {
        Splice { len, count: 0 }
    }

    /// The number of bytes moved so far.
    pub fn count(&self) -> (r: usize)
        ensures
            r == self.moved(),
    {
        self.count
    }

    /// The number of bytes that the next `splice` call asks for, or `None` when
    /// the transfer is over and returns `count()`.
    pub fn next_request(&self) -> (r: Option<usize>)
        ensures
            r == spec_splice_request(self.limit(), self.moved() as int),
            self.limit() matches Some(n) ==> (r is None <==> self.moved() == n),
            self.limit() matches Some(n) ==> (r is Some ==> r == Some(n)),
            self.limit() is None ==> r == Some(4096usize),
    {
        match self.len {
            Some(n) => {
                if n == self.count {
                    None
                } else {
                    Some(n)
                }
            },
            None => Some(pipe_buf()),
        }
    }

    /// Takes in what a `splice` call reported.
    pub fn on_event(&mut self, ev: Event) -> (flow: Flow)
        requires
            spec_count_after(old(self).moved() as int, ev) <= usize::MAX,
        ensures
            flow == spec_flow(old(self).moved() as int, ev),
            final(self).moved() == spec_count_after(old(self).moved() as int, ev),
            ev matches Event::Transferred(n) ==> final(self).moved() == old(self).moved() + n,
            !(ev is Transferred) ==> final(self).moved() == old(self).moved(),
            final(self).limit() == old(self).limit(),
    {
        count_event(&mut self.count, ev)
    }
}

/// How a `splice` transfer that has moved `moved` bytes goes on when its calls
/// report `evs` in turn, by `spec_splice_request`, `spec_flow` and
/// `spec_count_after`: its result, or `None` when it is still running after them.
pub open spec fn spec_splice_run(limit: Option<usize>, moved: int, evs: Seq<Event>) -> Option<Result<int, i32>>
    decreases evs.len(),
{
    if spec_splice_request(limit, moved) is None {
        Some(Ok(moved))
    } else if evs.len() == 0 {
        None
    } else {
        match spec_flow(moved, evs[0]) {
            Flow::Finished(Ok(_)) => Some(Ok(moved)),
            Flow::Finished(Err(code)) => Some(Err(code)),
            _ => spec_splice_run(limit, spec_count_after(moved, evs[0]), evs.drop_first()),
        }
    }
}

/// The count that `splice` returns is the total of the bytes that its calls
/// moved: when the calls report `evs` in turn and the transfer finishes with
/// `Ok(count)`, `count` is the sum of the byte counts of the events it took in
/// (the first `k` of them).
pub proof fn lemma_splice_returns_total(limit: Option<usize>, evs: Seq<Event>)
    ensures
        spec_splice_run(limit, 0, evs) matches Some(Ok(count)) ==>
            exists|k: int| 0 <= k <= evs.len() && count == spec_transferred_total(#[trigger] evs.take(k)),
{
    lemma_splice_run_total(limit, 0, evs);
}

proof fn lemma_splice_run_total(limit: Option<usize>, moved: int, evs: Seq<Event>)
    ensures
        spec_splice_run(limit, moved, evs) matches Some(Ok(count)) ==>
            exists|k: int| 0 <= k <= evs.len() && count == moved + spec_transferred_total(#[trigger] evs.take(k)),
    decreases evs.len(),
{
    if let Some(Ok(count)) = spec_splice_run(limit, moved, evs) {
        if spec_splice_request(limit, moved) is None || spec_flow(moved, evs[0]) is Finished {
            assert(evs.take(0) =~= Seq::<Event>::empty());
            assert(count == moved + spec_transferred_total(evs.take(0)));
        } else {
            let next = spec_count_after(moved, evs[0]);
            lemma_splice_run_total(limit, next, evs.drop_first());
            let k = choose|k: int| 0 <= k <= evs.drop_first().len()
                && count == next + spec_transferred_total(#[trigger] evs.drop_first().take(k));
            lemma_total_step(evs, k);
            assert(count == moved + spec_transferred_total(evs.take(k + 1)));
        }
    }
}

/// Without a length, `splice` only ends well at the end of the input: when it
/// finishes with a count, the last call it took in reported zero bytes.
pub proof fn lemma_splice_unbounded_ends_at_eof(evs: Seq<Event>)
    ensures
        spec_splice_run(None, 0, evs) matches Some(Ok(_)) ==>
            exists|k: int| 0 <= k < evs.len() && #[trigger] evs[k] == Event::Transferred(0),
{
    lemma_splice_unbounded_eof(0, evs);
}

proof fn lemma_splice_unbounded_eof(moved: int, evs: Seq<Event>)
    ensures
        spec_splice_run(None, moved, evs) matches Some(Ok(_)) ==>
            exists|k: int| 0 <= k < evs.len() && #[trigger] evs[k] == Event::Transferred(0),
    decreases evs.len(),
{
    if spec_splice_run(None, moved, evs) matches Some(Ok(_)) {
        if spec_flow(moved, evs[0]) is Finished {
            assert(evs[0] == Event::Transferred(0));
        } else {
            lemma_splice_unbounded_eof(spec_count_after(moved, evs[0]), evs.drop_first());
            let k = choose|k: int| 0 <= k < evs.drop_first().len() && #[trigger] evs.drop_first()[k] == Event::Transferred(0);
            assert(evs[k + 1] == evs.drop_first()[k]);
        }
    }
}

/// With a length `n`, a transfer asks for no more calls exactly when the count it
/// has moved equals `n`, and every call it makes asks for `n` bytes; without a
/// length, it always makes a call, of `PIPE_BUF` (4096) bytes.
pub proof fn lemma_splice_request_stops_at_length(n: usize, moved: int)
    ensures
        spec_splice_request(Some(n), moved) is None <==> moved == n,
        moved != n ==> spec_splice_request(Some(n), moved) == Some(n),
        spec_splice_request(None, moved) == Some(4096usize),
{
}

/// With a length `n`, a transfer that finishes well reports exactly `n`, unless a
/// call reported the end of the input (zero bytes).
pub proof fn lemma_splice_length_run(n: usize, evs: Seq<Event>)
    ensures
        spec_splice_run(Some(n), 0, evs) matches Some(Ok(count)) ==>
            count == n || exists|k: int| 0 <= k < evs.len() && #[trigger] evs[k] == Event::Transferred(0),
{
    lemma_splice_length_run_from(n, 0, evs);
}

proof fn lemma_splice_length_run_from(n: usize, moved: int, evs: Seq<Event>)
    ensures
        spec_splice_run(Some(n), moved, evs) matches Some(Ok(count)) ==>
            count == n || exists|k: int| 0 <= k < evs.len() && #[trigger] evs[k] == Event::Transferred(0),
    decreases evs.len(),
{
    if let Some(Ok(count)) = spec_splice_run(Some(n), moved, evs) {
        if spec_splice_request(Some(n), moved) is None {
        } else if spec_flow(moved, evs[0]) is Finished {
            assert(evs[0] == Event::Transferred(0));
        } else {
            lemma_splice_length_run_from(n, spec_count_after(moved, evs[0]), evs.drop_first());
            if count != n {
                let k = choose|k: int| 0 <= k < evs.drop_first().len() && #[trigger] evs.drop_first()[k] == Event::Transferred(0);
                assert(evs[k + 1] == evs.drop_first()[k]);
            }
        }
    }
}

} // verus!
