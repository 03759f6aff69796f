//! Zero-copy transfers between Linux file descriptors: the decisions that drive
//! `splice`, `tee`, `sendfile` and zero-copy TCP sends, verified.

pub mod event;
pub mod tcpsink;
pub mod splice;
pub mod sendfile;
pub mod pipe;
