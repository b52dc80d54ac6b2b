//! The readiness multiplexer: registration of interest sets keyed by opaque
//! tokens, the bulk readiness wait, and decoding of each returned result mask
//! into a deduplicated, token-tagged event sequence.

use crate::event::{bits_view, decode_mask, legal_mask, single_bits, DecodeError, Event};
use crate::pollable::Pollable;
use crate::registry;
use crate::registry::{fd_entries, ready_count, token_entries, FdList, TokenList};
use crate::sys::OsError;
use core::cmp::Ordering;
use vstd::std_specs::cmp::PartialOrdSpec;
use vstd::prelude::*;

verus! {

/// One registry entry: a raw descriptor value, the interest mask it was
/// registered with, and the result mask the last wait reported for it.
#[derive(Clone, Copy, Debug, PartialEq, Eq, Structural)]
pub struct PollFd {
    /// The raw descriptor value to watch. The entry does not own it.
    pub fd: i32,
    /// The interest mask: the conditions to be notified about.
    pub events: u16,
    /// The result mask from the last wait, consumed by [`PollFd::events`].
    pub revents: u16,
}

impl PollFd {
    /// A fresh entry for `fd` with interest `events` and no pending result.
    pub fn new(fd: i32, events: Event) -> (r: PollFd)
        ensures
            r.fd == fd,
            r.events == events@,
            r.revents == 0,
    {
        PollFd { fd, events: events.bits(), revents: 0 }
    }

    /// Consumes the pending result mask — clearing it, so one result is
    /// decoded exactly once — and decodes it into single-bit events in
    /// ascending bit-position order. A result mask with a bit outside the
    /// closed legal set is reported as a [`DecodeError`] carrying the mask.
    pub fn events(&mut self) -> (r: Result<Vec<Event>, DecodeError>)
        ensures
            final(self).fd == old(self).fd,
            final(self).events == old(self).events,
            final(self).revents == 0,
            r is Ok <==> legal_mask(old(self).revents),
            r matches Ok(v) ==> bits_view(v@) == single_bits(old(self).revents),
            r matches Err(d) ==> d.bits == old(self).revents,
    {
        let m = self.revents;
        self.revents = 0;
        decode_mask(m)
    }
}

/// An opaque caller-supplied identifier correlating registered interests with
/// reported events. Plain data with no uniqueness constraint: several
/// registrations may share one token.
#[derive(Clone, Copy, Debug, PartialEq, Eq, PartialOrd, Ord, Hash, Structural)]
pub struct Token(pub usize);

impl From<Token> for usize {
    /// The token's underlying integer value.
    fn from(tok: Token) -> (r: usize) {
        tok.0
    }
}

impl vstd::std_specs::convert::FromSpecImpl<Token> for usize {
    open spec fn obeys_from_spec() -> bool {
        true
    }

    open spec fn from_spec(tok: Token) -> usize {
        tok.0
    }
}

/// Timeout value for [`Poll::poll`]. Either indefinite or a number of
/// time-units in `[0, i32::MAX]`; the indefinite value compares greater than
/// every finite one.
#[derive(Clone, Copy, Debug, PartialEq, Eq, Hash, Structural)]
pub struct Timeout(i32);

impl Timeout {
    /// The raw quantity behind the timeout; any negative value encodes
    /// "indefinite".
    pub closed spec fn raw(&self) -> int {
        self.0 as int
    }

    /// Whether the timeout is indefinite.
    pub open spec fn is_infinite_spec(&self) -> bool {
        self.raw() < 0
    }

    /// A timeout that makes polls return instantly; the same as `secs(0)`.
    pub fn instant() -> (r: Timeout)
        ensures
            r.raw() == 0,
    {
        Timeout(0)
    }

    /// The indefinite timeout: polls wait until an event arrives.
    pub fn infinite() -> (r: Timeout)
        ensures
            r.is_infinite_spec(),
    {
        Timeout(-1)
    }

    /// A timeout of `secs` time-units, for any `secs` in `[0, i32::MAX]`.
    /// A negative explicit count is rejected with `None`: the only indefinite
    /// value is the one [`Timeout::infinite`] makes.
    pub fn secs(secs: i32) -> (r: Option<Timeout>)
        ensures
            secs >= 0 ==> (r matches Some(t) && t.raw() == secs),
            secs < 0 ==> r is None,
    {
        if secs >= 0 {
            Some(Timeout(secs))
        } else {
            None
        }
    }

    /// Whether the timeout is indefinite.
    pub fn is_infinite(self) -> (r: bool)
        ensures
            r == self.is_infinite_spec(),
    {
        self.0 < 0
    }

    /// Whether the timeout is exactly zero, i.e. polls return instantly.
    /// Equivalent to `as_secs() == Some(0)`.
    pub fn is_instant(self) -> (r: bool)
        ensures
            r == (self.raw() == 0),
    {
        self.0 == 0
    }

    /// The finite value of the timeout, or `None` if it is indefinite.
    pub fn as_secs(self) -> (r: Option<i32>)
        ensures
            self.is_infinite_spec() ==> r is None,
            !self.is_infinite_spec() ==> (r matches Some(s) && s == self.raw()),
    {
        if self.0 >= 0 {
            Some(self.0)
        } else {
            None
        }
    }
}

impl PartialOrd for Timeout {
    /// The total order on timeouts: indefinite values compare equal to each
    /// other and greater than every finite value; finite values compare by
    /// their quantity.
    fn partial_cmp(&self, other: &Timeout) -> (r: Option<Ordering>) {
        if self.0 < 0 && other.0 < 0 {
            Some(Ordering::Equal)
        } else if self.0 < 0 {
            Some(Ordering::Greater)
        } else if other.0 < 0 {
            Some(Ordering::Less)
        } else if self.0 < other.0 {
            Some(Ordering::Less)
        } else if self.0 == other.0 {
            Some(Ordering::Equal)
        } else {
            Some(Ordering::Greater)
        }
    }
}

impl vstd::std_specs::cmp::PartialOrdSpecImpl for Timeout {
    open spec fn obeys_partial_cmp_spec() -> bool {
        true
    }

    open spec fn partial_cmp_spec(&self, other: &Timeout) -> Option<Ordering> {
        if self.is_infinite_spec() && other.is_infinite_spec() {
            Some(Ordering::Equal)
        } else if self.is_infinite_spec() {
            Some(Ordering::Greater)
        } else if other.is_infinite_spec() {
            Some(Ordering::Less)
        } else if self.raw() < other.raw() {
            Some(Ordering::Less)
        } else if self.raw() == other.raw() {
            Some(Ordering::Equal)
        } else {
            Some(Ordering::Greater)
        }
    }
}

/// The token-tagged pairs one registry entry contributes to the event
/// sequence: one `(token, single-bit event)` pair per set bit of its result
/// mask, in ascending bit-position order, or one `(token, decode error)` pair
/// when the mask carries a bit outside the closed legal set.
pub open spec fn entry_events(tok: usize, m: u16) -> Seq<(usize, Result<u16, u16>)> {
    if legal_mask(m) {
        ok_pairs(tok, single_bits(m))
    } else {
        seq![(tok, Result::<u16, u16>::Err(m))]
    }
}

/// Each raw single-bit value paired with the one token, kept in order.
pub open spec fn ok_pairs(tok: usize, bits: Seq<u16>) -> Seq<(usize, Result<u16, u16>)> {
    bits.map_values(|b: u16| (tok, Result::<u16, u16>::Ok(b)))
}

/// The event pairs of the first `n` registry entries, in registration order.
pub open spec fn events_upto(
    entries: Seq<(i32, u16, u16)>,
    toks: Seq<usize>,
    n: int,
) -> Seq<(usize, Result<u16, u16>)>
    decreases n,
{
    if n <= 0 {
        Seq::empty()
    } else {
        events_upto(entries, toks, n - 1) + entry_events(toks[n - 1], entries[n - 1].2)
    }
}

/// The mathematical value of one reported pair: the token's value with either
/// the event's wire value or the offending mask.
pub open spec fn pair_view(p: (Token, Result<Event, DecodeError>)) -> (usize, Result<u16, u16>) {
    (
        p.0.0,
        match p.1 {
            Ok(e) => Result::<u16, u16>::Ok(e@),
            Err(d) => Result::<u16, u16>::Err(d.bits),
        },
    )
}

/// The mathematical value of a reported sequence, element for element.
pub open spec fn pairs_view(s: Seq<(Token, Result<Event, DecodeError>)>) -> Seq<
    (usize, Result<u16, u16>),
> {
    s.map_values(|p: (Token, Result<Event, DecodeError>)| pair_view(p))
}

/// The readiness multiplexer: a growable registry of (descriptor, interest,
/// token) registrations, a bulk wait over all of them, and the decode of the
/// returned result masks into token-tagged single-bit events.
pub struct Poll {
    fds: FdList,
    tokens: TokenList,
}

impl Poll {
    /// The registry's (descriptor, interest mask, result mask) entries, in
    /// registration order.
    pub closed spec fn reg_entries(&self) -> Seq<(i32, u16, u16)> {
        fd_entries(self.fds)
    }

    /// The registry's tokens, in registration order, index-aligned with
    /// [`Poll::reg_entries`].
    pub closed spec fn reg_tokens(&self) -> Seq<usize> {
        token_entries(self.tokens)
    }

    /// Well-formed: the entry and token sequences stay in lockstep.
    pub open spec fn wf(&self) -> bool {
        self.reg_entries().len() == self.reg_tokens().len()
    }

    /// An empty multiplexer with nothing registered.
    pub fn new() -> (r: Poll)
        ensures
            r.wf(),
            r.reg_entries() == Seq::<(i32, u16, u16)>::empty(),
            r.reg_tokens() == Seq::<usize>::empty(),
    {
        Poll { fds: FdList::new(), tokens: TokenList::new() }
    }

    /// Registers a pollable object: appends one entry holding its raw
    /// descriptor value and the interest mask, with no pending result, and the
    /// token beside it. The descriptor is not validated here — a stale one
    /// surfaces at the next wait. Registering the same descriptor again, under
    /// any token, makes a second independent entry.
    pub fn register<T: Pollable>(&mut self, fd: &T, token: Token, events: Event)
        requires
            old(self).wf(),
        ensures
            final(self).wf(),
            final(self).reg_entries() == old(self).reg_entries().push((fd.raw(), events@, 0u16)),
            final(self).reg_tokens() == old(self).reg_tokens().push(token.0),
    {
        self.fds.push(PollFd::new(fd.as_raw_fd(), events));
        self.tokens.push(token);
    }

    /// Waits for readiness on every registered entry in one bulk syscall,
    /// until an entry is ready, the timeout elapses, or a signal interrupts
    /// the wait (surfaced as the OS error, never retried here). On success
    /// exactly the count of entries holding a pending result is returned,
    /// never more than there are entries; descriptors, interest masks and
    /// tokens are left exactly as registered.
    pub fn poll(&mut self, timeout: Timeout) -> (r: Result<usize, OsError>)
        requires
            old(self).wf(),
        ensures
            final(self).wf(),
            final(self).reg_tokens() == old(self).reg_tokens(),
            final(self).reg_entries().len() == old(self).reg_entries().len(),
            forall|i: int|
                0 <= i < old(self).reg_entries().len() ==> (#[trigger] final(self).reg_entries()[i]).0
                    == old(self).reg_entries()[i].0
                    && final(self).reg_entries()[i].1 == old(self).reg_entries()[i].1,
            r matches Ok(n) ==> n <= old(self).reg_entries().len(),
            r matches Ok(n) ==> n == ready_count(final(self).reg_entries()),
    {
        registry::sys_poll(&mut self.fds, timeout.0)
    }

    /// Decodes the results of the last wait into a sequence of token-tagged
    /// pairs, in registration order and, within one entry, in ascending
    /// bit-position order. Every pending result mask is consumed — cleared —
    /// so one wait's results are reported exactly once. An entry with no
    /// pending bits contributes nothing; one whose mask carries a bit outside
    /// the closed legal set contributes its token with a [`DecodeError`]
    /// rather than being dropped or stopping the rest of the decode.
    pub fn events(&mut self) -> (r: Vec<(Token, Result<Event, DecodeError>)>)
        requires
            old(self).wf(),
        ensures
            final(self).wf(),
            final(self).reg_tokens() == old(self).reg_tokens(),
            final(self).reg_entries().len() == old(self).reg_entries().len(),
            forall|k: int|
                0 <= k < old(self).reg_entries().len() ==> (#[trigger] final(self).reg_entries()[k])
                    == (old(self).reg_entries()[k].0, old(self).reg_entries()[k].1, 0u16),
            pairs_view(r@) == events_upto(
                old(self).reg_entries(),
                old(self).reg_tokens(),
                old(self).reg_entries().len() as int,
            ),
    {
        let ghost gentries = fd_entries(old(self).fds);
        let ghost gtoks = token_entries(old(self).tokens);
        let n = self.fds.len();
        let mut out: Vec<(Token, Result<Event, DecodeError>)> = Vec::new();
        let mut i: usize = 0;
        while i < n
            invariant
                i <= n,
                n == gentries.len(),
                gentries == fd_entries(old(self).fds),
                gtoks == token_entries(old(self).tokens),
                gentries.len() == gtoks.len(),
                token_entries(self.tokens) == gtoks,
                fd_entries(self.fds).len() == n,
                forall|k: int|
                    0 <= k < i ==> (#[trigger] fd_entries(self.fds)[k]) == (
                        gentries[k].0,
                        gentries[k].1,
                        0u16,
                    ),
                forall|k: int| i <= k < n ==> (#[trigger] fd_entries(self.fds)[k]) == gentries[k],
                pairs_view(out@) == events_upto(gentries, gtoks, i as int),
            decreases n - i,
        {
            let pfd = self.fds.get(i);
            let tok = self.tokens.get(i);
            let m = pfd.revents;
            self.fds.set(i, PollFd { fd: pfd.fd, events: pfd.events, revents: 0 });
            let ghost base = pairs_view(out@);
            proof {
                assert(m == gentries[i as int].2);
                assert(tok.0 == gtoks[i as int]);
            }
            match decode_mask(m) {
                Ok(v) => {
                    let vlen = v.len();
                    let mut j: usize = 0;
                    while j < vlen
                        invariant
                            j <= vlen,
                            vlen == v@.len(),
                            bits_view(v@) == single_bits(m),
                            pairs_view(out@) == base + ok_pairs(tok.0, single_bits(m)).take(
                                j as int,
                            ),
                        decreases vlen - j,
                    {
                        let e = v[j];
                        let ghost prev = out@;
                        out.push((tok, Ok(e)));
                        proof {
                            let sb = single_bits(m);
                            assert(sb.len() == vlen);
                            assert(bits_view(v@)[j as int] == v@[j as int]@);
                            assert(e@ == sb[j as int]);
                            assert(pairs_view(out@) =~= pairs_view(prev).push(
                                pair_view((tok, Result::<Event, DecodeError>::Ok(e))),
                            ));
                            assert(pair_view((tok, Result::<Event, DecodeError>::Ok(e))) == (
                                tok.0,
                                Result::<u16, u16>::Ok(sb[j as int]),
                            ));
                            assert(ok_pairs(tok.0, sb)[j as int] == (
                                tok.0,
                                Result::<u16, u16>::Ok(sb[j as int]),
                            ));
                            assert(ok_pairs(tok.0, sb).take(j as int + 1) =~= ok_pairs(
                                tok.0,
                                sb,
                            ).take(j as int).push((tok.0, Result::<u16, u16>::Ok(sb[j as int]))));
                            assert(pairs_view(out@) =~= base + ok_pairs(tok.0, sb).take(
                                j as int + 1,
                            ));
                        }
                        j = j + 1;
                    }
                    proof {
                        assert(ok_pairs(tok.0, single_bits(m)).take(vlen as int) =~= ok_pairs(
                            tok.0,
                            single_bits(m),
                        ));
                        assert(entry_events(gtoks[i as int], m) == ok_pairs(tok.0, single_bits(m)));
                    }
                },
                Err(d) => {
                    out.push((tok, Err(d)));
                    proof {
                        assert(pairs_view(out@) =~= base + seq![
                            (tok.0, Result::<u16, u16>::Err(m)),
                        ]);
                        assert(entry_events(gtoks[i as int], m) == seq![
                            (tok.0, Result::<u16, u16>::Err(m)),
                        ]);
                    }
                },
            }
            proof {
                assert(events_upto(gentries, gtoks, i as int + 1) == events_upto(
                    gentries,
                    gtoks,
                    i as int,
                ) + entry_events(gtoks[i as int], gentries[i as int].2));
            }
            i = i + 1;
        }
        out
    }
}

/// Law: an entry with no returned bits contributes nothing to the event
/// sequence.
pub proof fn lemma_entry_events_zero(tok: usize)
    ensures
        entry_events(tok, 0u16) == Seq::<(usize, Result<u16, u16>)>::empty(),
{
    crate::event::lemma_single_bits_zero();
    assert(legal_mask(0u16)) by (bit_vector);
    assert(ok_pairs(tok, Seq::<u16>::empty()) =~= Seq::<(usize, Result<u16, u16>)>::empty());
}

/// Law: cleared result masks contribute nothing, so consumption is one-shot:
/// once a decode pass has cleared every entry's pending result, a second pass
/// over the same registry yields an empty event sequence.
pub proof fn lemma_events_one_shot(entries: Seq<(i32, u16, u16)>, toks: Seq<usize>, n: int)
    requires
        forall|k: int| 0 <= k < n ==> (#[trigger] entries[k]).2 == 0,
        n <= entries.len(),
        n <= toks.len(),
    ensures
        events_upto(entries, toks, n) == Seq::<(usize, Result<u16, u16>)>::empty(),
    decreases n,
{
    if n > 0 {
        lemma_events_one_shot(entries, toks, n - 1);
        lemma_entry_events_zero(toks[n - 1]);
        assert(events_upto(entries, toks, n) =~= Seq::<(usize, Result<u16, u16>)>::empty());
    }
}

/// Law: when exactly one of the first `n` entries holds a pending result, the
/// event sequence over them is that entry's own decomposition, nothing more —
/// in particular, a lone result of `{readable, error}` yields exactly its two
/// single-bit pairs, in ascending bit-position order.
pub proof fn lemma_events_single_entry(
    entries: Seq<(i32, u16, u16)>,
    toks: Seq<usize>,
    n: int,
    i: int,
)
    requires
        0 <= i < n,
        n <= entries.len(),
        n <= toks.len(),
        forall|k: int| 0 <= k < n && k != i ==> (#[trigger] entries[k]).2 == 0,
    ensures
        events_upto(entries, toks, n) == entry_events(toks[i], entries[i].2),
    decreases n,
{
    if i == n - 1 {
        lemma_events_one_shot(entries, toks, n - 1);
        assert(events_upto(entries, toks, n) =~= entry_events(toks[i], entries[i].2));
    } else {
        lemma_events_single_entry(entries, toks, n - 1, i);
        lemma_entry_events_zero(toks[n - 1]);
        assert(events_upto(entries, toks, n) =~= entry_events(toks[i], entries[i].2));
    }
}

/// Law: the timeout order is total, an indefinite timeout compares greater
/// than any finite one, two indefinite timeouts compare equal, and two finite
/// timeouts compare by their quantity.
pub proof fn lemma_timeout_ordering(a: Timeout, b: Timeout)
    ensures
        a.partial_cmp_spec(&b) is Some,
        a.is_infinite_spec() && b.is_infinite_spec() ==> a.partial_cmp_spec(&b) == Some(
            Ordering::Equal,
        ),
        a.is_infinite_spec() && !b.is_infinite_spec() ==> a.partial_cmp_spec(&b) == Some(
            Ordering::Greater,
        ) && b.partial_cmp_spec(&a) == Some(Ordering::Less),
        !a.is_infinite_spec() && !b.is_infinite_spec() ==> (a.partial_cmp_spec(&b) == Some(
            Ordering::Less,
        ) <==> a.raw() < b.raw()),
{
}

} // verus!
