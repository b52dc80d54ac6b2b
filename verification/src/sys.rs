//! The syscall boundary: thin trusted wrappers around the `nix` crate's safe
//! bindings for the descriptor syscalls. Each wrapper only converts between
//! the library's plain values and the binding's types; everything decided
//! from the results is verified in the callers.

use vstd::prelude::*;

verus! {

/// A syscall failure, carrying the platform error code.
#[derive(Clone, Copy, Debug, PartialEq, Eq, Structural)]
pub struct OsError {
    /// The OS `errno` value reported for the failed call.
    pub code: i32,
}

/// The platform's would-block error code (`EAGAIN`, equal to `EWOULDBLOCK` on
/// Linux). Read absorbs this condition as a successful zero-byte transfer, so
/// no error a read reports ever carries this code.
pub const WOULD_BLOCK_CODE: i32 = 11;

/// The outcome of one raw read syscall, with the would-block condition kept
/// apart from real failures so that the caller can absorb it.
pub(crate) enum ReadOutcome {
    /// The syscall transferred this many bytes.
    Count(usize),
    /// The descriptor is non-blocking and nothing is available right now.
    WouldBlock,
    /// Any other syscall failure.
    Failed(OsError),
}

/// Relies on `nix::unistd::pipe` (the `pipe` syscall): on success both returned
/// descriptors are valid — non-negative and, as two open descriptors, distinct.
#[verifier::external_body]
pub(crate) fn sys_pipe() -> (r: Result<(i32, i32), OsError>)
    ensures
        r matches Ok(fds) ==> fds.0 >= 0 && fds.1 >= 0 && fds.0 != fds.1,
{
    match nix::unistd::pipe() {
        Ok((rd, wr)) => Ok((rd, wr)),
        Err(e) => Err(OsError { code: e as i32 }),
    }
}

/// Relies on `nix::fcntl::fcntl` with `F_SETFD(FD_CLOEXEC)`: sets the
/// close-on-exec flag on the descriptor.
#[verifier::external_body]
pub(crate) fn sys_set_cloexec(fd: i32) -> (r: Result<(), OsError>) {
    match nix::fcntl::fcntl(fd, nix::fcntl::FcntlArg::F_SETFD(nix::fcntl::FdFlag::FD_CLOEXEC)) {
        Ok(_) => Ok(()),
        Err(e) => Err(OsError { code: e as i32 }),
    }
}

/// Relies on `nix::fcntl::fcntl` with `F_SETFL(O_NONBLOCK)`: puts the
/// descriptor into non-blocking mode.
#[verifier::external_body]
pub(crate) fn sys_set_nonblock(fd: i32) -> (r: Result<(), OsError>) {
    match nix::fcntl::fcntl(fd, nix::fcntl::FcntlArg::F_SETFL(nix::fcntl::OFlag::O_NONBLOCK)) {
        Ok(_) => Ok(()),
        Err(e) => Err(OsError { code: e as i32 }),
    }
}

/// Relies on `nix::unistd::read` (the `read` syscall): a successful read of
/// `n` bytes fills exactly the first `n` places of `buf`, leaving its length
/// and the bytes past `n` unchanged; an error return means nothing was
/// transferred, so the buffer is untouched. The would-block failure is told
/// apart by its `errno` and never reported through `Failed`.
#[verifier::external_body]
pub(crate) fn sys_read(fd: i32, buf: &mut Vec<u8>) -> (r: ReadOutcome)
    ensures
        final(buf)@.len() == old(buf)@.len(),
        r matches ReadOutcome::Count(n) ==> n <= old(buf)@.len() && (forall|k: int|
            n <= k < old(buf)@.len() ==> final(buf)@[k] == old(buf)@[k]),
        !(r is Count) ==> final(buf)@ == old(buf)@,
        r matches ReadOutcome::Failed(e) ==> e.code != WOULD_BLOCK_CODE,
{
    match nix::unistd::read(fd, buf.as_mut_slice()) {
        Ok(n) => ReadOutcome::Count(n),
        Err(e) if e == nix::errno::Errno::EAGAIN => ReadOutcome::WouldBlock,
        Err(e) => ReadOutcome::Failed(OsError { code: e as i32 }),
    }
}

/// Relies on `nix::unistd::write` (the `write` syscall): on success it reports
/// how many of the buffer's bytes were transferred, never more than there are.
#[verifier::external_body]
pub(crate) fn sys_write(fd: i32, buf: &[u8]) -> (r: Result<usize, OsError>)
    ensures
        r matches Ok(n) ==> n <= buf@.len(),
{
    match nix::unistd::write(fd, buf) {
        Ok(n) => Ok(n),
        Err(e) => Err(OsError { code: e as i32 }),
    }
}

/// Relies on `nix::unistd::close` (the `close` syscall). The result is
/// ignored, as nothing can be done about a failed close of an owned
/// descriptor.
#[verifier::external_body]
pub(crate) fn sys_close(fd: i32)
    opens_invariants none
    no_unwind
{
    let _ = nix::unistd::close(fd);
}

/// Relies on `nix::unistd::dup` (the `dup` syscall): on success the new
/// descriptor is valid, hence non-negative, and occupies the lowest free
/// slot — a slot distinct from `fd`, which success shows was itself open.
#[verifier::external_body]
pub(crate) fn sys_dup(fd: i32) -> (r: Result<i32, OsError>)
    ensures
        r matches Ok(nfd) ==> nfd >= 0 && nfd != fd,
{
    match nix::unistd::dup(fd) {
        Ok(nfd) => Ok(nfd),
        Err(e) => Err(OsError { code: e as i32 }),
    }
}

/// Relies on `nix::unistd::dup2` (the `dup2` syscall): on success the returned
/// descriptor is the requested target slot.
#[verifier::external_body]
pub(crate) fn sys_dup2(fd: i32, dst: i32) -> (r: Result<i32, OsError>)
    ensures
        r matches Ok(nfd) ==> nfd == dst,
{
    match nix::unistd::dup2(fd, dst) {
        Ok(nfd) => Ok(nfd),
        Err(e) => Err(OsError { code: e as i32 }),
    }
}

} // verus!
