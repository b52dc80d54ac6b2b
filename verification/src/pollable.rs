//! The narrow capability interface for descriptor-backed types: yield the raw
//! descriptor, adopt a raw descriptor, and duplicate the descriptor while
//! preserving close-on-exec on the duplicate.

use crate::sys;
use crate::sys::OsError;
use vstd::prelude::*;

verus! {

/// An interface for pollable types, i.e., those that wrap an underlying file
/// descriptor. The multiplexer and the duplication logic depend only on this
/// interface, never on a concrete end type.
pub trait Pollable: Sized {
    /// The raw descriptor value this instance wraps.
    spec fn raw(&self) -> i32;

    /// Yields the raw underlying descriptor, e.g. to register it with the
    /// multiplexer.
    fn as_raw_fd(&self) -> (r: i32)
        ensures
            r == self.raw(),
    ;

    /// Wraps a caller-supplied raw descriptor, adopting exclusive ownership
    /// of it.
    fn from_fd(fd: i32) -> (r: Self)
        ensures
            r.raw() == fd,
    ;

    /// Duplicates the underlying descriptor into the lowest free slot and sets
    /// the close-on-exec flag on the duplicate. If setting the flag fails, the
    /// half-made duplicate is closed before the error returns, so no
    /// descriptor leaks on the failure path. On success the new instance is
    /// independent of this one: it wraps a valid, non-negative descriptor
    /// distinct from the one it was duplicated from.
    fn dup(&self) -> (r: Result<Self, OsError>)
        ensures
            r matches Ok(d) ==> d.raw() >= 0 && d.raw() != self.raw(),
    {
        let new_fd = match sys::sys_dup(self.as_raw_fd()) {
            Ok(fd) => fd,
            Err(e) => {
                return Err(e);
            },
        };
        match sys::sys_set_cloexec(new_fd) {
            Ok(()) => Ok(Self::from_fd(new_fd)),
            Err(e) => {
                sys::sys_close(new_fd);
                Err(e)
            },
        }
    }

    /// Equivalent to [`dup`](Pollable::dup), but duplicates the underlying
    /// descriptor into the caller-chosen slot `dst`, which — per OS semantics —
    /// silently closes whatever was previously open there. On success the new
    /// instance wraps exactly `dst`.
    fn dup2(&self, dst: i32) -> (r: Result<Self, OsError>)
        ensures
            r matches Ok(d) ==> d.raw() == dst,
    {
        let new_fd = match sys::sys_dup2(self.as_raw_fd(), dst) {
            Ok(fd) => fd,
            Err(e) => {
                return Err(e);
            },
        };
        match sys::sys_set_cloexec(new_fd) {
            Ok(()) => Ok(Self::from_fd(new_fd)),
            Err(e) => {
                sys::sys_close(new_fd);
                Err(e)
            },
        }
    }
}

} // verus!
