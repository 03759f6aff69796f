# tokio_linux_zio

Zero-copy I/O between Linux file descriptors for tokio: pipes, `splice`, `tee`,
`sendfile`, and a TCP sink that sends with `MSG_ZEROCOPY`.

- `src/` is the verified library (Verus). It holds every decision taken on what a
  system call returned: how a raw return value and `errno` read (`event`), when a
  single-shot read, write or `tee` is over (`event::single_step`), the loops of
  `splice` and `sendfile` as state machines with proved laws about their counts,
  the range arithmetic of `sendfile`, the ends of a new pipe, and the bookkeeping of
  the zero-copy sink and the check of its completion notifications.
- `app/` is the async plumbing: it makes the system calls, waits on tokio's
  readiness, and asks the library what to do next.
- `tests/` exercise the library on concrete values.
