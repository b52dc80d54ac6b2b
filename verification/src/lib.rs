//! A minimal event-readiness layer over Unix pipes: a non-blocking byte pipe
//! abstraction and a readiness multiplexer built on the `poll` syscall.

use vstd::prelude::*;

mod event;
mod pipe;
mod poll;
mod pollable;
mod registry;
mod reader;
mod sys;
mod writer;

pub use crate::event::{
    bits_view, decode_mask, legal_mask, lemma_event_groups_disjoint, lemma_single_bits_recompose,
    lemma_single_bits_zero, low_mask, or_all, single_bits, single_bits_upto, DecodeError, Event,
    ERROR_BITS, LEGAL_EVENT_BITS, POLLERR, POLLHUP, POLLIN, POLLNVAL, POLLOUT, POLLPRI,
    POLLRDBAND, POLLRDNORM, POLLWRBAND, POLLWRNORM, READABLE_BITS, WRITABLE_BITS,
};
pub use crate::poll::{
    entry_events, events_upto, lemma_entry_events_zero, lemma_events_one_shot,
    lemma_events_single_entry, lemma_timeout_ordering, ok_pairs, pair_view, pairs_view, Poll,
    PollFd, Timeout, Token,
};
pub use crate::pollable::Pollable;
pub use crate::reader::Reader;
pub use crate::sys::{OsError, WOULD_BLOCK_CODE};
pub use crate::writer::Writer;

verus! {

/// Sets both the close-on-exec and the non-blocking flag on a fresh
/// descriptor.
fn configure(fd: i32) -> (r: Result<(), OsError>) {
    match sys::sys_set_cloexec(fd) {
        Ok(()) => sys::sys_set_nonblock(fd),
        Err(e) => Err(e),
    }
}

/// Creates a [`Reader`]/[`Writer`] pair for a non-blocking Unix pipe. The
/// close-on-exec and non-blocking flags are set for both ends before the pair
/// is handed back. Failure at any step is reported, both descriptors are
/// closed, and no partially-configured pair escapes.
pub fn new() -> (r: Result<(Reader, Writer), OsError>)
    ensures
        r matches Ok(p) ==> p.0.raw() >= 0 && p.1.raw() >= 0 && p.0.raw() != p.1.raw(),
{
    let (rfd, wfd) = match sys::sys_pipe() {
        Ok(fds) => fds,
        Err(e) => {
            return Err(e);
        },
    };
    match configure(rfd) {
        Ok(()) => (),
        Err(e) => {
            sys::sys_close(rfd);
            sys::sys_close(wfd);
            return Err(e);
        },
    }
    match configure(wfd) {
        Ok(()) => (),
        Err(e) => {
            sys::sys_close(rfd);
            sys::sys_close(wfd);
            return Err(e);
        },
    }
    Ok((Reader::new(rfd), Writer::new(wfd)))
}

} // verus!
