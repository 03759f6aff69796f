//! Outcomes of a non-blocking Linux system call, and what a single-shot
//! operation does with them.

use vstd::prelude::*;

verus! {

/// `libc::EAGAIN` on Linux.
///
/// Trusted: returns the constant `libc::EAGAIN`, which the libc crate defines as 11
/// for Linux.
#[verifier::external_body]
fn errno_eagain() -> (r: i32)
    ensures
        r == 11,
{
    libc::EAGAIN
}

/// `libc::EWOULDBLOCK` on Linux.
///
/// Trusted: returns the constant `libc::EWOULDBLOCK`, which the libc crate defines as
/// `EAGAIN`, that is 11, for Linux.
#[verifier::external_body]
fn errno_ewouldblock() -> (r: i32)
    ensures
        r == 11,
{
    libc::EWOULDBLOCK
}

/// An error code is "would block" when it is `EAGAIN` or `EWOULDBLOCK`: these are
/// the codes that std reports as `io::ErrorKind::WouldBlock`.
pub open spec fn spec_would_block(code: i32) -> bool {
    code == 11
}

/// Whether an error code means that the call would have had to block.
pub fn would_block(code: i32) -> (r: bool)
    ensures
        r == spec_would_block(code),
        r <==> code == 11,
{
    code == errno_eagain() || code == errno_ewouldblock()
}

/// What a non-blocking transfer call reported.
#[derive(Clone, Copy, Debug, PartialEq, Eq, Structural)]
pub enum Event {
    /// The call moved this many bytes (zero at end of input).
    Transferred(usize),
    /// The call failed with `EAGAIN`/`EWOULDBLOCK`: the descriptor is not ready.
    WouldBlock,
    /// The call failed with this error code.
    Failed(i32),
}

/// The event that a system call's error code stands for.
pub open spec fn spec_error_event(code: i32) -> Event {
    if spec_would_block(code) {
        Event::WouldBlock
    } else {
        Event::Failed(code)
    }
}

/// The event that a raw return value stands for: `-1` is an error whose code is
/// `errno`, anything else is a byte count.
pub open spec fn spec_raw_event(ret: isize, errno: i32) -> Event {
    if ret == -1 {
        spec_error_event(errno)
    } else {
        Event::Transferred(ret as usize)
    }
}

/// The event that a call's `Result` stands for.
pub open spec fn spec_result_event(res: Result<usize, i32>) -> Event {
    match res {
        Ok(n) => Event::Transferred(n),
        Err(code) => spec_error_event(code),
    }
}

impl Event {
    /// Reads the return value of a call such as `read`, `write`, `splice`, `tee` or
    /// `sendfile`; `errno` is the thread's error code right after the call, and only
    /// matters when the call returned `-1`.
    pub fn from_raw(ret: isize, errno: i32) -> (ev: Event)
        ensures
            ev == spec_raw_event(ret, errno),
            ret >= 0 ==> ev == Event::Transferred(ret as usize) && ret as usize == ret,
            ret == -1 && errno == 11 ==> ev == Event::WouldBlock,
            ret == -1 && errno != 11 ==> ev == Event::Failed(errno),
    {
        if ret == -1 {
            Event::from_error(errno)
        } else {
            Event::Transferred(ret as usize)
        }
    }

    /// The event for a call that failed with `code`.
    pub fn from_error(code: i32) -> (ev: Event)
        ensures
            ev == spec_error_event(code),
            code == 11 ==> ev == Event::WouldBlock,
            code != 11 ==> ev == Event::Failed(code),
    {
        if would_block(code) {
            Event::WouldBlock
        } else {
            Event::Failed(code)
        }
    }

    /// The event for a call whose outcome is already a `Result`.
    pub fn from_result(res: Result<usize, i32>) -> (ev: Event)
        ensures
            ev == spec_result_event(res),
            res matches Ok(n) ==> ev == Event::Transferred(n),
            res == Err::<usize, i32>(11) ==> ev == Event::WouldBlock,
            res matches Err(code) ==> (code != 11 ==> ev == Event::Failed(code)),
    {
        match res {
            Ok(n) => Event::Transferred(n),
            Err(code) => Event::from_error(code),
        }
    }
}

/// What a single-shot operation (a read, a write, a `tee`) does after one call.
#[derive(Clone, Copy, Debug, PartialEq, Eq)]
pub enum Step {
    /// Clear the readiness that was reported, wait until the descriptors are ready
    /// again and retry the call.
    Wait,
    /// The operation is over: the byte count, or the error code.
    Finished(Result<usize, i32>),
}

/// The step that follows an event in a single-shot operation.
pub open spec fn spec_single_step(ev: Event) -> Step {
    match ev {
        Event::Transferred(n) => Step::Finished(Ok(n)),
        Event::WouldBlock => Step::Wait,
        Event::Failed(code) => Step::Finished(Err(code)),
    }
}

/// A single-shot operation reports the first result that is not "would block":
/// the byte count of the call, or its error.
pub fn single_step(ev: Event) -> (step: Step)
    ensures
        step == spec_single_step(ev),
        ev matches Event::Transferred(n) ==> step == Step::Finished(Ok(n)),
        ev matches Event::Failed(code) ==> step == Step::Finished(Err(code)),
        ev is WouldBlock ==> step == Step::Wait,
{
    match ev {
        Event::Transferred(n) => Step::Finished(Ok(n)),
        Event::WouldBlock => Step::Wait,
        Event::Failed(code) => Step::Finished(Err(code)),
    }
}

/// What a looping transfer does after one call.
#[derive(Clone, Copy, Debug, PartialEq, Eq)]
pub enum Flow {
    /// Bytes were moved: go on with the next request.
    Continue,
    /// The call would have blocked: clear the readiness that was reported, wait
    /// until the descriptors are ready again and make the same request.
    Wait,
    /// The transfer is over: the byte count, or the error code.
    Finished(Result<usize, i32>),
}

/// The count of a looping transfer after an event: the bytes that the call moved
/// are added to it.
pub open spec fn spec_count_after(count: int, ev: Event) -> int {
    match ev {
        Event::Transferred(n) => count + n,
        _ => count,
    }
}

/// The flow of a looping transfer after an event: zero bytes (the input has ended)
/// finishes with the count, moved bytes continue, "would block" waits, an error
/// finishes with it.
pub open spec fn spec_flow(count: int, ev: Event) -> Flow {
    match ev {
        Event::Transferred(n) => {
            if n == 0 {
                Flow::Finished(Ok(count as usize))
            } else {
                Flow::Continue
            }
        },
        Event::WouldBlock => Flow::Wait,
        Event::Failed(code) => Flow::Finished(Err(code)),
    }
}

/// Takes an event into the count of a looping transfer.
pub fn count_event(count: &mut usize, ev: Event) -> (flow: Flow)
    requires
        spec_count_after(*old(count) as int, ev) <= usize::MAX,
    ensures
        flow == spec_flow(*old(count) as int, ev),
        *final(count) == spec_count_after(*old(count) as int, ev),
        ev matches Event::Transferred(n) ==> *final(count) == *old(count) + n,
        !(ev is Transferred) ==> *final(count) == *old(count),
        ev == Event::Transferred(0) ==> flow == Flow::Finished(Ok(*old(count))),
        ev matches Event::Transferred(n) ==> (n > 0 ==> flow == Flow::Continue),
        ev matches Event::Failed(code) ==> flow == Flow::Finished(Err(code)),
        ev is WouldBlock ==> flow == Flow::Wait,
{
    match ev {
        Event::Transferred(n) => {
            if n == 0 {
                Flow::Finished(Ok(*count))
            } else {
                *count = *count + n;
                Flow::Continue
            }
        },
        Event::WouldBlock => Flow::Wait,
        Event::Failed(code) => Flow::Finished(Err(code)),
    }
}

/// The sum of the byte counts that a sequence of events reports.
pub open spec fn spec_transferred_total(evs: Seq<Event>) -> int
    decreases evs.len(),
{
    if evs.len() == 0 {
        0
    } else {
        (match evs[0] {
            Event::Transferred(n) => n as int,
            _ => 0,
        }) + spec_transferred_total(evs.drop_first())
    }
}

/// The total of the first `k + 1` events is the bytes of the first event plus the
/// total of the `k` that follow it.
pub proof fn lemma_total_step(evs: Seq<Event>, k: int)
    requires
        0 <= k < evs.len(),
    ensures
        spec_transferred_total(evs.take(k + 1)) == spec_count_after(0, evs[0])
            + spec_transferred_total(evs.drop_first().take(k)),
{
    assert(evs.take(k + 1).drop_first() =~= evs.drop_first().take(k));
    assert(evs.take(k + 1)[0] == evs[0]);
}

/// A call's raw return value reads as what it says: a return of zero or more is
/// that many bytes moved, and `-1` is "would block" when `errno` is `EAGAIN` (11)
/// and a failure with `errno` otherwise. A call whose outcome is a `Result` reads
/// the same way: `Ok(n)` is `n` bytes moved, `Err(code)` is "would block" for 11
/// and a failure with `code` otherwise.
pub proof fn lemma_events_read_calls(ret: isize, errno: i32, n: usize, code: i32)
    ensures
        ret >= 0 ==> spec_raw_event(ret, errno) == Event::Transferred(ret as usize) && ret as usize == ret,
        spec_raw_event(-1isize, 11i32) == Event::WouldBlock,
        errno != 11 ==> spec_raw_event(-1isize, errno) == Event::Failed(errno),
        spec_result_event(Ok(n)) == Event::Transferred(n),
        spec_result_event(Err(11)) == Event::WouldBlock,
        code != 11 ==> spec_result_event(Err(code)) == Event::Failed(code),
{
}

/// A single-shot operation finishes with exactly what its call reported: `Ok(n)`
/// for a call that moved `n` bytes, `Err(code)` for a call that failed with
/// `code`; it only waits on "would block".
pub proof fn lemma_single_step_reports_call(n: usize, code: i32)
    ensures
        spec_single_step(Event::Transferred(n)) == Step::Finished(Ok::<usize, i32>(n)),
        spec_single_step(Event::Failed(code)) == Step::Finished(Err::<usize, i32>(code)),
        spec_single_step(Event::WouldBlock) == Step::Wait,
{
}

/// A looping transfer adds to its count exactly the bytes that a call reports, and
/// nothing for a call that would block or failed; a call of zero bytes finishes it
/// with the count, a call of more continues it.
pub proof fn lemma_count_adds_reported_bytes(count: int, n: usize, code: i32)
    ensures
        spec_count_after(count, Event::Transferred(n)) == count + n,
        spec_count_after(count, Event::WouldBlock) == count,
        spec_count_after(count, Event::Failed(code)) == count,
        n > 0 ==> spec_flow(count, Event::Transferred(n)) == Flow::Continue,
        spec_flow(count, Event::Transferred(0)) == Flow::Finished(Ok::<usize, i32>(count as usize)),
        spec_flow(count, Event::WouldBlock) == Flow::Wait,
        spec_flow(count, Event::Failed(code)) == Flow::Finished(Err::<usize, i32>(code)),
{
}

} // verus!
