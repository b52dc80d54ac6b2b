//! The low-level pipe end: exclusive ownership of one OS descriptor, raw
//! non-blocking byte transfer, and release of the descriptor exactly once.

use crate::sys;
use crate::sys::{OsError, ReadOutcome, WOULD_BLOCK_CODE};
use vstd::prelude::*;
use vstd::slice::slice_subrange;

verus! {

/// Resolves one raw read outcome under the would-block-as-zero rule: a
/// transferred count is handed through, the would-block condition becomes a
/// successful read of zero bytes, and any other failure propagates unchanged.
fn absorb_would_block(outcome: ReadOutcome) -> (r: Result<usize, OsError>)
    ensures
        outcome matches ReadOutcome::Count(n) ==> r == Ok::<usize, OsError>(n),
        outcome is WouldBlock ==> r == Ok::<usize, OsError>(0usize),
        outcome matches ReadOutcome::Failed(e) ==> r == Err::<usize, OsError>(e),
{
    match outcome {
        ReadOutcome::Count(n) => Ok(n),
        ReadOutcome::WouldBlock => Ok(0),
        ReadOutcome::Failed(e) => Err(e),
    }
}

/// Decides one step of the write-all loop from a single write's result: a
/// positive count advances the offset by exactly that count, a zero count —
/// no progress possible — fails with code zero, and a syscall failure is
/// handed through unchanged.
fn write_all_step(result: Result<usize, OsError>, offset: usize, len: usize) -> (r: Result<
    usize,
    OsError,
>)
    requires
        offset < len,
        result matches Ok(n) ==> n <= len - offset,
    ensures
        result matches Ok(n) ==> r == (if n == 0 {
            Err::<usize, OsError>(OsError { code: 0 })
        } else {
            Ok::<usize, OsError>((offset + n) as usize)
        }),
        result matches Err(e) ==> r == Err::<usize, OsError>(e),
        r matches Ok(newoff) ==> offset < newoff <= len,
{
    match result {
        Ok(n) => {
            if n == 0 {
                Err(OsError { code: 0 })
            } else {
                Ok(offset + n)
            }
        },
        Err(e) => Err(e),
    }
}

/// Appends exactly the first `n` bytes of `chunk` to `buf`, in order.
fn append_prefix(buf: &mut Vec<u8>, chunk: &Vec<u8>, n: usize)
    requires
        n <= chunk@.len(),
    ensures
        final(buf)@ == old(buf)@ + chunk@.subrange(0, n as int),
{
    let mut j: usize = 0;
    while j < n
        invariant
            j <= n,
            n <= chunk@.len(),
            buf@ == old(buf)@ + chunk@.subrange(0, j as int),
        decreases n - j,
    {
        buf.push(chunk[j]);
        proof {
            assert(buf@ =~= old(buf)@ + chunk@.subrange(0, j as int + 1));
        }
        j = j + 1;
    }
    proof {
        assert(buf@ =~= old(buf)@ + chunk@.subrange(0, n as int));
    }
}

/// The stop rule of the read-until-exhausted loop: a read of zero bytes —
/// nothing available right now, or end of stream — ends the loop with the
/// running total, and any other count keeps it going.
fn read_stop(n: usize, total: usize) -> (r: Option<usize>)
    ensures
        n == 0 ==> r == Some(total),
        n != 0 ==> r is None,
{
    if n == 0 {
        Some(total)
    } else {
        None
    }
}

/// One owned OS file descriptor. There is at most one live owner at any time:
/// ownership transfers on move and the descriptor is closed exactly once, when
/// the owner is dropped.
#[derive(Debug)]
pub(crate) struct Pipe {
    pub(crate) fd: i32,
}

impl Pipe {
    /// Adopts a caller-supplied descriptor value.
    pub(crate) fn new(fd: i32) -> (r: Pipe)
        ensures
            r.fd == fd,
    {
        Pipe { fd }
    }

    /// One write syscall: on success at most `buf.len()` bytes were accepted.
    /// A non-blocking write may legally accept a short count.
    pub(crate) fn write(&mut self, buf: &[u8]) -> (r: Result<usize, OsError>)
        ensures
            final(self).fd == old(self).fd,
            r matches Ok(n) ==> n <= buf@.len(),
    {
        sys::sys_write(self.fd, buf)
    }

    /// Repeats the single-write primitive, advancing the buffer offset by each
    /// returned count, until the full buffer is consumed or a syscall fails.
    /// An empty buffer is a legal no-op that always succeeds without a
    /// syscall. A write that accepts no bytes cannot make progress and is
    /// reported as a failure with code zero, a value no real platform failure
    /// uses; every other reported failure is a failed underlying write's own.
    pub(crate) fn write_all(&mut self, buf: &[u8]) -> (r: Result<(), OsError>)
        ensures
            final(self).fd == old(self).fd,
            buf@.len() == 0 ==> r is Ok,
    {
        let mut offset: usize = 0;
        while offset < buf.len()
            invariant
                offset <= buf@.len(),
                self.fd == old(self).fd,
            decreases buf@.len() - offset,
        {
            let chunk = slice_subrange(buf, offset, buf.len());
            offset = match write_all_step(sys::sys_write(self.fd, chunk), offset, buf.len()) {
                Ok(newoff) => newoff,
                Err(e) => {
                    return Err(e);
                },
            };
        }
        Ok(())
    }

    /// Reads repeatedly, appending to `buf`, until a read yields zero bytes —
    /// the pipe is exhausted for now, or would block; the would-block
    /// condition therefore ends the loop successfully and is never the
    /// reported error. On success the returned count is exactly the number of
    /// bytes appended; what `buf` already held is never disturbed, even when a
    /// later read fails.
    pub(crate) fn read_to_end(&mut self, buf: &mut Vec<u8>) -> (r: Result<usize, OsError>)
        ensures
            final(self).fd == old(self).fd,
            final(buf)@.len() >= old(buf)@.len(),
            final(buf)@.subrange(0, old(buf)@.len() as int) == old(buf)@,
            r matches Ok(n) ==> final(buf)@.len() == old(buf)@.len() + n,
            r matches Err(e) ==> e.code != WOULD_BLOCK_CODE,
    {
        let start_len = buf.len();
        let mut total: usize = 0;
        loop
            invariant
                buf@.len() == start_len + total,
                start_len == old(buf)@.len(),
                buf@.len() <= usize::MAX,
                buf@.subrange(0, start_len as int) == old(buf)@,
                self.fd == old(self).fd,
            decreases usize::MAX - total,
        {
            let mut chunk: Vec<u8> = Vec::new();
            let mut i: usize = 0;
            while i < 512
                invariant
                    chunk@.len() == i,
                    i <= 512,
                decreases 512 - i,
            {
                chunk.push(0u8);
                i = i + 1;
            }
            let n = match self.read(&mut chunk) {
                Ok(n) => n,
                Err(e) => {
                    return Err(e);
                },
            };
            match read_stop(n, total) {
                Some(done) => {
                    return Ok(done);
                },
                None => (),
            }
            append_prefix(buf, &chunk, n);
            proof {
                assert(buf@.subrange(0, start_len as int) =~= old(buf)@);
            }
            let new_len = buf.len();
            total = new_len - start_len;
        }
    }

    /// A pipe holds no buffered state of its own, so flushing always succeeds
    /// without a syscall.
    pub(crate) fn flush(&mut self) -> (r: Result<(), OsError>)
        ensures
            final(self).fd == old(self).fd,
            r is Ok,
    {
        Ok(())
    }

    /// One read syscall into the front of `buf`. A would-block condition is
    /// not an error: it is absorbed as a successful read of zero bytes, since
    /// callers rely on readiness notification rather than busy-polling — so no
    /// error this function returns carries the would-block code, and an error
    /// leaves the buffer untouched. Any other syscall failure propagates. On
    /// success at most `buf.len()` bytes were placed at the front; the bytes
    /// past the returned count and the buffer's length never change.
    pub(crate) fn read(&mut self, buf: &mut Vec<u8>) -> (r: Result<usize, OsError>)
        ensures
            final(self).fd == old(self).fd,
            final(buf)@.len() == old(buf)@.len(),
            r matches Ok(n) ==> n <= old(buf)@.len() && (forall|k: int|
                n <= k < old(buf)@.len() ==> final(buf)@[k] == old(buf)@[k]),
            r is Err ==> final(buf)@ == old(buf)@,
            r matches Err(e) ==> e.code != WOULD_BLOCK_CODE,
    {
        absorb_would_block(sys::sys_read(self.fd, buf))
    }
}

impl Drop for Pipe {
    /// Releases the descriptor exactly once, when its single owner goes out of
    /// scope.
    fn drop(&mut self)
        opens_invariants none
        no_unwind
    {
        sys::sys_close(self.fd);
    }
}

} // verus!
