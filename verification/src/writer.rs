//! The write end of a Unix pipe.

use crate::pipe::Pipe;
use crate::pollable::Pollable;
use crate::sys::OsError;
use vstd::prelude::*;

verus! {

/// The write end of a Unix pipe. Like [`Reader`](crate::Reader), a `Writer`
/// made by [`new`](crate::new) is non-blocking and has the close-on-exec flag
/// set. It exclusively owns its descriptor and never exposes read.
#[derive(Debug)]
pub struct Writer {
    pipe: Pipe,
}

impl Writer {
    /// Wraps a descriptor in a new write end.
    pub(crate) fn new(fd: i32) -> (r: Writer)
        ensures
            r.raw() == fd,
    {
        Writer { pipe: Pipe::new(fd) }
    }

    /// One write syscall: on success at most `buf.len()` bytes were accepted.
    /// A non-blocking write may legally accept a short count; a would-block
    /// failure propagates as an error.
    pub fn write(&mut self, buf: &[u8]) -> (r: Result<usize, OsError>)
        ensures
            final(self).raw() == old(self).raw(),
            r matches Ok(n) ==> n <= buf@.len(),
    {
        self.pipe.write(buf)
    }

    /// Repeats the single-write primitive, advancing the buffer offset by each
    /// returned count, until the full buffer is consumed or a failure occurs.
    /// An empty buffer is a legal no-op that always succeeds; a write that
    /// accepts no bytes is reported as a failure with code zero, and every
    /// other failure is a failed underlying write's own.
    pub fn write_all(&mut self, buf: &[u8]) -> (r: Result<(), OsError>)
        ensures
            final(self).raw() == old(self).raw(),
            buf@.len() == 0 ==> r is Ok,
    {
        self.pipe.write_all(buf)
    }

    /// A pipe buffers nothing in user space, so flushing always succeeds
    /// without a syscall.
    pub fn flush(&mut self) -> (r: Result<(), OsError>)
        ensures
            final(self).raw() == old(self).raw(),
            r is Ok,
    {
        self.pipe.flush()
    }
}

impl Pollable for Writer {
    closed spec fn raw(&self) -> i32 {
        self.pipe.fd
    }

    fn as_raw_fd(&self) -> (r: i32)
        ensures
            r == self.raw(),
    {
        self.pipe.fd
    }

    fn from_fd(fd: i32) -> (r: Writer)
        ensures
            r.raw() == fd,
    {
        Writer { pipe: Pipe::new(fd) }
    }
}

} // verus!
