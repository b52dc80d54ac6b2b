//! The read end of a Unix pipe.

use crate::pipe::Pipe;
use crate::pollable::Pollable;
use crate::sys::{OsError, WOULD_BLOCK_CODE};
use vstd::prelude::*;

verus! {

/// The read end of a Unix pipe. Like [`Writer`](crate::Writer), a `Reader`
/// made by [`new`](crate::new) is non-blocking and has the close-on-exec flag
/// set. It exclusively owns its descriptor and never exposes write.
#[derive(Debug)]
pub struct Reader {
    pipe: Pipe,
}

impl Reader {
    /// Wraps a descriptor in a new read end.
    pub(crate) fn new(fd: i32) -> (r: Reader)
        ensures
            r.raw() == fd,
    {
        Reader { pipe: Pipe::new(fd) }
    }

    /// One read syscall into the front of `buf`; a would-block condition is
    /// absorbed as a successful read of zero bytes, so no returned error
    /// carries the would-block code, and any other syscall failure propagates
    /// with the buffer untouched. On success at most `buf.len()` bytes were
    /// placed at the front of `buf`; the bytes past the returned count and the
    /// buffer's length never change.
    pub fn read(&mut self, buf: &mut Vec<u8>) -> (r: Result<usize, OsError>)
        ensures
            final(self).raw() == old(self).raw(),
            final(buf)@.len() == old(buf)@.len(),
            r matches Ok(n) ==> n <= old(buf)@.len() && (forall|k: int|
                n <= k < old(buf)@.len() ==> final(buf)@[k] == old(buf)@[k]),
            r is Err ==> final(buf)@ == old(buf)@,
            r matches Err(e) ==> e.code != WOULD_BLOCK_CODE,
    {
        self.pipe.read(buf)
    }

    /// Reads until the pipe is exhausted for now, appending to `buf`; the
    /// would-block condition ends the loop successfully, so no returned error
    /// carries its code. On success the returned count is exactly the number
    /// of bytes appended; what `buf` already held is never disturbed, even on
    /// failure.
    pub fn read_to_end(&mut self, buf: &mut Vec<u8>) -> (r: Result<usize, OsError>)
        ensures
            final(self).raw() == old(self).raw(),
            final(buf)@.len() >= old(buf)@.len(),
            final(buf)@.subrange(0, old(buf)@.len() as int) == old(buf)@,
            r matches Ok(n) ==> final(buf)@.len() == old(buf)@.len() + n,
            r matches Err(e) ==> e.code != WOULD_BLOCK_CODE,
    {
        self.pipe.read_to_end(buf)
    }
}

impl Pollable for Reader {
    closed spec fn raw(&self) -> i32 {
        self.pipe.fd
    }

    fn as_raw_fd(&self) -> (r: i32)
        ensures
            r == self.raw(),
    {
        self.pipe.fd
    }

    fn from_fd(fd: i32) -> (r: Reader)
        ensures
            r.raw() == fd,
    {
        Reader { pipe: Pipe::new(fd) }
    }
}

} // verus!
