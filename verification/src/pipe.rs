//! The decision of `pipe`: which descriptor ends up where once `pipe2` returned.

use vstd::prelude::*;

verus! {

/// The ends of a pipe after `pipe2(fds, ..)` returned `ret` (with `errno` the error
/// code right after the call): the error code when the call failed, else the read
/// end `fds[0]` and the write end `fds[1]`.
pub fn pipe_ends(ret: i32, fds: [i32; 2], errno: i32) -> (r: Result<(i32, i32), i32>)
    ensures
        ret == -1 ==> r == Err::<(i32, i32), i32>(errno),
        ret != -1 ==> r == Ok::<(i32, i32), i32>((fds@[0], fds@[1])),
{
    if ret == -1 {
        Err(errno)
    } else {
        Ok((fds[0], fds[1]))
    }
}

} // verus!
