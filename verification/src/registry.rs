//! The multiplexer's registry storage — small-vector lists of registration
//! entries and of tokens — and the bulk readiness syscall over it. The lists
//! are held behind trusted wrappers; everything decided from their contents is
//! verified in the callers.

use crate::poll::{PollFd, Token};
use crate::sys::OsError;
use vstd::prelude::*;

verus! {

/// The registration entries an [`FdList`] holds, each as (descriptor,
/// interest mask, result mask), in insertion order.
pub uninterp spec fn fd_entries(l: FdList) -> Seq<(i32, u16, u16)>;

/// The tokens a [`TokenList`] holds, by value, in insertion order.
pub uninterp spec fn token_entries(l: TokenList) -> Seq<usize>;

/// The multiplexer's table of (descriptor, interest, result) entries, kept in
/// a small vector so that typical registrations stay on the stack.
#[verifier::external_body]
pub struct FdList {
    inner: smallvec::SmallVec<[PollFd; 8]>,
}

/// The multiplexer's table of tokens, index-aligned with an [`FdList`].
#[verifier::external_body]
pub struct TokenList {
    inner: smallvec::SmallVec<[Token; 8]>,
}

impl FdList {
    /// Relies on `smallvec::SmallVec::new`: a fresh list holds nothing.
    #[verifier::external_body]
    pub(crate) fn new() -> (r: FdList)
        ensures
            fd_entries(r) == Seq::<(i32, u16, u16)>::empty(),
    {
        FdList { inner: smallvec::SmallVec::new() }
    }

    /// Relies on `smallvec::SmallVec::len`: the number of entries held.
    #[verifier::external_body]
    pub(crate) fn len(&self) -> (r: usize)
        ensures
            r == fd_entries(*self).len(),
    {
        self.inner.len()
    }

    /// Relies on `smallvec::SmallVec::push`: appends one entry at the end and
    /// keeps the rest.
    #[verifier::external_body]
    pub(crate) fn push(&mut self, p: PollFd)
        ensures
            fd_entries(*final(self)) == fd_entries(*old(self)).push((p.fd, p.events, p.revents)),
    {
        self.inner.push(p);
    }

    /// Relies on the index operator of the slice a `SmallVec` dereferences to:
    /// yields the entry at `i` unchanged.
    #[verifier::external_body]
    pub(crate) fn get(&self, i: usize) -> (r: PollFd)
        requires
            i < fd_entries(*self).len(),
        ensures
            (r.fd, r.events, r.revents) == fd_entries(*self)[i as int],
    {
        self.inner[i]
    }

    /// Relies on the mutable index operator of the slice a `SmallVec`
    /// dereferences to: replaces the entry at `i` and keeps the rest.
    #[verifier::external_body]
    pub(crate) fn set(&mut self, i: usize, p: PollFd)
        requires
            i < fd_entries(*old(self)).len(),
        ensures
            fd_entries(*final(self)) == fd_entries(*old(self)).update(
                i as int,
                (p.fd, p.events, p.revents),
            ),
    {
        self.inner[i] = p;
    }
}

impl TokenList {
    /// Relies on `smallvec::SmallVec::new`: a fresh list holds nothing.
    #[verifier::external_body]
    pub(crate) fn new() -> (r: TokenList)
        ensures
            token_entries(r) == Seq::<usize>::empty(),
    {
        TokenList { inner: smallvec::SmallVec::new() }
    }

    /// Relies on `smallvec::SmallVec::push`: appends one token at the end and
    /// keeps the rest.
    #[verifier::external_body]
    pub(crate) fn push(&mut self, t: Token)
        ensures
            token_entries(*final(self)) == token_entries(*old(self)).push(t.0),
    {
        self.inner.push(t);
    }

    /// Relies on the index operator of the slice a `SmallVec` dereferences to:
    /// yields the token at `i` unchanged.
    #[verifier::external_body]
    pub(crate) fn get(&self, i: usize) -> (r: Token)
        requires
            i < token_entries(*self).len(),
        ensures
            r.0 == token_entries(*self)[i as int],
    {
        self.inner[i]
    }
}

/// How many entries hold a pending — non-zero — result mask.
pub open spec fn ready_count(entries: Seq<(i32, u16, u16)>) -> int
    decreases entries.len(),
{
    if entries.len() == 0 {
        0int
    } else {
        ready_count(entries.drop_last()) + (if entries.last().2 != 0 {
            1int
        } else {
            0int
        })
    }
}

/// Relies on `nix::poll::poll` (the `poll` syscall) over the whole table in
/// one call: it waits until a registered descriptor is ready, the timeout
/// elapses or a signal arrives, fills in each entry's result mask, and returns
/// exactly how many entries were given a non-zero one — never more than there
/// are entries. Descriptors and interest masks are left as they were; what the
/// result masks hold depends on the OS and is not assumed. Result bits that
/// the binding cannot represent are recorded as a mask with a bit outside the
/// legal set, so the decoder reports them rather than dropping them.
#[verifier::external_body]
pub(crate) fn sys_poll(l: &mut FdList, timeout: i32) -> (r: Result<usize, OsError>)
    ensures
        fd_entries(*final(l)).len() == fd_entries(*old(l)).len(),
        forall|i: int|
            0 <= i < fd_entries(*old(l)).len() ==> (#[trigger] fd_entries(*final(l))[i]).0
                == fd_entries(*old(l))[i].0 && fd_entries(*final(l))[i].1 == fd_entries(
                *old(l),
            )[i].1,
        r matches Ok(n) ==> n <= fd_entries(*old(l)).len(),
        r matches Ok(n) ==> n == ready_count(fd_entries(*final(l))),
{
    let mut raw: Vec<nix::poll::PollFd> = l.inner.iter().map(
        |p| nix::poll::PollFd::new(p.fd, nix::poll::PollFlags::from_bits_truncate(p.events as i16)),
    ).collect();
    match nix::poll::poll(&mut raw, timeout) {
        Ok(n) => {
            for (ours, theirs) in l.inner.iter_mut().zip(raw.iter()) {
                ours.revents = match theirs.revents() {
                    Some(flags) => flags.bits() as u16,
                    None => 0x8000,
                };
            }
            Ok(n as usize)
        },
        Err(e) => Err(OsError { code: e as i32 }),
    }
}

} // verus!
