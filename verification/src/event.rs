//! A typed bitmask over the readiness flags that the `poll` syscall reports.
//!
//! The set of legal bit positions is fixed and closed: the ten flags below.
//! Conversion from a raw wire value validates that no other bit is set, so a
//! platform extension bit can never be misread as one of the known flags.

use vstd::prelude::*;

verus! {

/// Input is ready to read.
pub const POLLIN: u16 = 0x001;
/// High-priority (urgent) data is ready.
pub const POLLPRI: u16 = 0x002;
/// Output space is available.
pub const POLLOUT: u16 = 0x004;
/// An error condition holds on the descriptor.
pub const POLLERR: u16 = 0x008;
/// The peer closed its end of the channel.
pub const POLLHUP: u16 = 0x010;
/// The descriptor is not open.
pub const POLLNVAL: u16 = 0x020;
/// Normal-priority data is ready (equivalent to `POLLIN`).
pub const POLLRDNORM: u16 = 0x040;
/// Priority-band data is ready.
pub const POLLRDBAND: u16 = 0x080;
/// Normal-priority write space is available (equivalent to `POLLOUT`).
pub const POLLWRNORM: u16 = 0x100;
/// Priority-band write space is available.
pub const POLLWRBAND: u16 = 0x200;

/// Every bit that a mask may legally carry.
pub const LEGAL_EVENT_BITS: u16 = POLLIN | POLLPRI | POLLOUT | POLLERR | POLLHUP | POLLNVAL
    | POLLRDNORM | POLLRDBAND | POLLWRNORM | POLLWRBAND;

/// The bits that indicate a pipe is readable.
pub const READABLE_BITS: u16 = POLLIN | POLLRDNORM | POLLRDBAND | POLLPRI;

/// The bits that indicate a pipe is writable.
pub const WRITABLE_BITS: u16 = POLLOUT | POLLWRNORM | POLLWRBAND;

/// The bits that indicate an error state.
pub const ERROR_BITS: u16 = POLLERR | POLLNVAL;

/// A raw mask is legal when it carries no bit outside the closed legal set.
pub open spec fn legal_mask(m: u16) -> bool {
    m & !LEGAL_EVENT_BITS == 0
}

/// A raw readiness mask whose bits lie outside the closed legal set.
/// Such a mask is reported as an error rather than silently dropped.
#[derive(Clone, Copy, Debug, PartialEq, Eq, Structural)]
pub struct DecodeError {
    /// The offending raw mask, extension bits included.
    pub bits: u16,
}

/// A set of readiness flags, as reported by or requested from the multiplexer.
#[derive(Clone, Copy, Debug, PartialEq, Eq, Structural, Hash)]
pub struct Event {
    bits: u16,
}

impl View for Event {
    type V = u16;

    closed spec fn view(&self) -> u16 {
        self.bits
    }
}

impl Event {
    /// Validating conversion from the raw 16-bit wire value: succeeds exactly
    /// when every set bit lies in the closed legal set, and then carries the
    /// value unchanged.
    pub fn from_bits(bits: u16) -> (r: Option<Event>)
        ensures
            r is Some <==> legal_mask(bits),
            r matches Some(e) ==> e@ == bits,
    {
        if bits & !LEGAL_EVENT_BITS == 0 {
            Some(Event { bits })
        } else {
            None
        }
    }

    /// The raw 16-bit wire value: the identity on the underlying bits.
    pub fn bits(self) -> (r: u16)
        ensures
            r == self@,
    {
        self.bits
    }

    /// The mask with no bit set.
    pub fn empty() -> (r: Event)
        ensures
            r@ == 0,
    {
        Event { bits: 0 }
    }

    /// Bitwise union of two masks.
    pub fn union(self, other: Event) -> (r: Event)
        ensures
            r@ == (self@ | other@),
    {
        Event { bits: self.bits | other.bits }
    }

    /// Whether the two masks share a set bit. Membership in a derived group is
    /// tested by non-zero intersection, not by equality.
    pub fn intersects(self, other: Event) -> (r: bool)
        ensures
            r == ((self@ & other@) != 0),
    {
        self.bits & other.bits != 0
    }

    /// The mask of all events indicating that a pipe is readable.
    pub fn all_readable() -> (r: Event)
        ensures
            r@ == READABLE_BITS,
    {
        Event { bits: READABLE_BITS }
    }

    /// The mask of all events indicating that a pipe is writable.
    pub fn all_writable() -> (r: Event)
        ensures
            r@ == WRITABLE_BITS,
    {
        Event { bits: WRITABLE_BITS }
    }

    /// The mask of all events indicating an error state.
    pub fn all_error() -> (r: Event)
        ensures
            r@ == ERROR_BITS,
    {
        Event { bits: ERROR_BITS }
    }

    /// Whether this mask indicates that a pipe is readable: true iff it
    /// intersects the readable group.
    pub fn is_readable(self) -> (r: bool)
        ensures
            r == ((self@ & READABLE_BITS) != 0),
    {
        self.bits & READABLE_BITS != 0
    }

    /// Whether this mask indicates that a pipe is writable: true iff it
    /// intersects the writable group.
    pub fn is_writable(self) -> (r: bool)
        ensures
            r == ((self@ & WRITABLE_BITS) != 0),
    {
        self.bits & WRITABLE_BITS != 0
    }

    /// Whether this mask indicates an error: true iff it intersects the error
    /// group.
    pub fn is_error(self) -> (r: bool)
        ensures
            r == ((self@ & ERROR_BITS) != 0),
    {
        self.bits & ERROR_BITS != 0
    }

    /// Whether this mask includes the hangup flag.
    pub fn is_hangup(self) -> (r: bool)
        ensures
            r == ((self@ & POLLHUP) != 0),
    {
        self.bits & POLLHUP != 0
    }
}

impl From<Event> for i16 {
    /// The signed reading of the raw wire value; every legal mask fits in the
    /// non-negative range, so the bits carry over unchanged.
    fn from(e: Event) -> (r: i16) {
        e.bits as i16
    }
}

impl vstd::std_specs::convert::FromSpecImpl<Event> for i16 {
    open spec fn obeys_from_spec() -> bool {
        true
    }

    open spec fn from_spec(e: Event) -> i16 {
        e@ as i16
    }
}

/// The single-bit masks among the lowest `p` bit positions of `m`, in
/// ascending bit-position order.
pub open spec fn single_bits_upto(m: u16, p: nat) -> Seq<u16>
    decreases p,
{
    if p == 0 {
        Seq::empty()
    } else {
        let bit = 1u16 << ((p - 1) as u16);
        single_bits_upto(m, (p - 1) as nat) + (if m & bit != 0 {
            seq![bit]
        } else {
            Seq::<u16>::empty()
        })
    }
}

/// The single-bit masks of `m`, in ascending bit-position order: the decoded
/// form of a readiness mask, one entry per set bit.
pub open spec fn single_bits(m: u16) -> Seq<u16> {
    single_bits_upto(m, 16)
}

/// The raw wire values of a sequence of events, element for element.
pub open spec fn bits_view(s: Seq<Event>) -> Seq<u16> {
    s.map_values(|e: Event| e@)
}

/// Decodes a raw readiness mask into its single-bit events, walking bit
/// positions from least to most significant. A mask with a bit outside the
/// closed legal set fails with a [`DecodeError`] carrying the offending mask,
/// so an extension bit is surfaced distinctly rather than dropped or
/// misinterpreted.
pub fn decode_mask(m: u16) -> (r: Result<Vec<Event>, DecodeError>)
    ensures
        r is Ok <==> legal_mask(m),
        r matches Ok(v) ==> bits_view(v@) == single_bits(m),
        r matches Err(d) ==> d.bits == m,
{
    if m & !LEGAL_EVENT_BITS != 0 {
        return Err(DecodeError { bits: m });
    }
    let mut out: Vec<Event> = Vec::new();
    let mut p: u16 = 0;
    while p < 16
        invariant
            p <= 16,
            bits_view(out@) == single_bits_upto(m, p as nat),
        decreases 16 - p,
    {
        let bit: u16 = 1u16 << p;
        let ghost prev = out@;
        if m & bit != 0 {
            out.push(Event { bits: bit });
        }
        proof {
            assert(single_bits_upto(m, (p + 1) as nat) == single_bits_upto(m, p as nat)
                + (if m & (1u16 << p) != 0 {
                seq![1u16 << p]
            } else {
                Seq::<u16>::empty()
            }));
            if m & bit != 0 {
                assert(bits_view(out@) =~= bits_view(prev).push(bit));
                assert(bits_view(prev).push(bit) =~= single_bits_upto(m, p as nat) + seq![bit]);
            } else {
                assert(single_bits_upto(m, (p + 1) as nat) =~= single_bits_upto(m, p as nat));
            }
        }
        p += 1;
    }
    Ok(out)
}

/// The single wire value a decoded event sequence re-encodes to: the union of
/// its members' bits.
pub open spec fn or_all(s: Seq<u16>) -> u16
    decreases s.len(),
{
    if s.len() == 0 {
        0u16
    } else {
        or_all(s.drop_last()) | s.last()
    }
}

/// The mask holding exactly the bit positions below `p`.
pub open spec fn low_mask(p: nat) -> u16 {
    ((((1u32 << (p as u32)) - 1) as u32) & 0xffffu32) as u16
}

/// Law: decoding then re-encoding yields the original value — the union of a
/// mask's single-bit events is the mask itself, so the decode loses nothing
/// and invents nothing.
pub proof fn lemma_single_bits_recompose(m: u16)
    ensures
        or_all(single_bits(m)) == m,
{
    lemma_single_bits_recompose_upto(m, 16);
    assert(((((1u32 << 16u32) - 1) as u32) & 0xffffu32) as u16 == 0xffffu16) by (bit_vector);
    assert(low_mask(16) == 0xffffu16);
    assert(m & 0xffffu16 == m) by (bit_vector);
}

proof fn lemma_low_mask_step(m: u16, q: u32)
    by (bit_vector)
    requires
        q < 16,
    ensures
        (m & (1u16 << (q as u16)) != 0) ==> ((m & (((((1u32 << q) - 1) as u32) & 0xffffu32) as u16))
            | (1u16 << (q as u16))) == (m & (((((1u32 << ((q + 1) as u32)) - 1) as u32)
            & 0xffffu32) as u16)),
        (m & (1u16 << (q as u16)) == 0) ==> (m & (((((1u32 << q) - 1) as u32) & 0xffffu32) as u16))
            == (m & (((((1u32 << ((q + 1) as u32)) - 1) as u32) & 0xffffu32) as u16)),
{
}

proof fn lemma_single_bits_recompose_upto(m: u16, p: nat)
    requires
        p <= 16,
    ensures
        or_all(single_bits_upto(m, p)) == m & low_mask(p),
    decreases p,
{
    if p == 0 {
        assert(((((1u32 << 0u32) - 1) as u32) & 0xffffu32) as u16 == 0u16) by (bit_vector);
        assert(low_mask(0) == 0u16);
        assert(m & 0u16 == 0u16) by (bit_vector);
    } else {
        lemma_single_bits_recompose_upto(m, (p - 1) as nat);
        let q: u32 = (p - 1) as u32;
        let bit: u16 = 1u16 << ((p - 1) as u16);
        let prevseq = single_bits_upto(m, (p - 1) as nat);
        assert(bit == 1u16 << (q as u16));
        assert(low_mask((p - 1) as nat) == (((((1u32 << q) - 1) as u32) & 0xffffu32) as u16));
        assert(low_mask(p) == (((((1u32 << ((q + 1) as u32)) - 1) as u32) & 0xffffu32) as u16));
        lemma_low_mask_step(m, q);
        if m & bit != 0 {
            assert(single_bits_upto(m, p) == prevseq + seq![bit]);
            assert((prevseq + seq![bit]).drop_last() =~= prevseq);
            assert((prevseq + seq![bit]).last() == bit);
            assert(or_all(single_bits_upto(m, p)) == or_all(prevseq) | bit);
        } else {
            assert(single_bits_upto(m, p) =~= prevseq);
        }
    }
}

/// Law: a mask with no bit set decodes to no events at all.
pub proof fn lemma_single_bits_zero()
    ensures
        single_bits(0u16) == Seq::<u16>::empty(),
{
    lemma_single_bits_upto_zero(16);
}

proof fn lemma_single_bits_upto_zero(p: nat)
    ensures
        single_bits_upto(0u16, p) == Seq::<u16>::empty(),
    decreases p,
{
    if p > 0 {
        lemma_single_bits_upto_zero((p - 1) as nat);
        let bit = 1u16 << ((p - 1) as u16);
        assert(0u16 & bit == 0) by (bit_vector);
        assert(single_bits_upto(0u16, p) =~= Seq::<u16>::empty());
    }
}

/// Law: the readable, writable and error groups are pairwise disjoint, and the
/// hangup flag lies in none of them — in particular, hangup does not imply
/// error.
pub proof fn lemma_event_groups_disjoint()
    ensures
        READABLE_BITS & WRITABLE_BITS == 0,
        READABLE_BITS & ERROR_BITS == 0,
        WRITABLE_BITS & ERROR_BITS == 0,
        POLLHUP & READABLE_BITS == 0,
        POLLHUP & WRITABLE_BITS == 0,
        POLLHUP & ERROR_BITS == 0,
{
    assert(READABLE_BITS & WRITABLE_BITS == 0) by (bit_vector);
    assert(READABLE_BITS & ERROR_BITS == 0) by (bit_vector);
    assert(WRITABLE_BITS & ERROR_BITS == 0) by (bit_vector);
    assert(POLLHUP & READABLE_BITS == 0) by (bit_vector);
    assert(POLLHUP & WRITABLE_BITS == 0) by (bit_vector);
    assert(POLLHUP & ERROR_BITS == 0) by (bit_vector);
}

} // verus!
