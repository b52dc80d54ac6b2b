//! The event bitmask: validating wire conversion and group predicates.

use pipemux::{
    decode_mask, Event, ERROR_BITS, LEGAL_EVENT_BITS, POLLERR, POLLHUP, POLLIN, POLLNVAL, POLLOUT, POLLPRI,
    POLLRDBAND, POLLRDNORM, POLLWRBAND, POLLWRNORM, READABLE_BITS, WRITABLE_BITS,
};

#[test]
fn round_trip_every_legal_mask() {
    // Decoding then re-encoding is the identity on every value composed only
    // of legal bits.
    for m in 0u16..=LEGAL_EVENT_BITS {
        let e = Event::from_bits(m).unwrap();
        assert_eq!(e.bits(), m);
    }
}

#[test]
fn every_unknown_bit_fails_to_decode() {
    // Each bit outside the closed legal set, alone ...
    for p in 10u16..16 {
        assert!(Event::from_bits(1u16 << p).is_none());
    }
    // ... in combination with each other ...
    assert!(Event::from_bits(0x0400 | 0x0800).is_none());
    assert!(Event::from_bits(!LEGAL_EVENT_BITS).is_none());
    // ... and mixed with legal bits.
    assert!(Event::from_bits(POLLIN | 0x0400).is_none());
    assert!(Event::from_bits(LEGAL_EVENT_BITS | 0x8000).is_none());
}

#[test]
fn from_bits_succeeds_exactly_on_legal_masks() {
    for m in 0u16..=u16::MAX {
        assert_eq!(Event::from_bits(m).is_some(), m & !LEGAL_EVENT_BITS == 0);
    }
}

#[test]
fn derived_groups_hold_their_documented_bits() {
    assert_eq!(Event::all_readable().bits(), POLLIN | POLLRDNORM | POLLRDBAND | POLLPRI);
    assert_eq!(Event::all_writable().bits(), POLLOUT | POLLWRNORM | POLLWRBAND);
    assert_eq!(Event::all_error().bits(), POLLERR | POLLNVAL);
    assert_eq!(READABLE_BITS & WRITABLE_BITS, 0);
    assert_eq!(READABLE_BITS & ERROR_BITS, 0);
    assert_eq!(WRITABLE_BITS & ERROR_BITS, 0);
}

#[test]
fn predicates_test_intersection_with_their_group() {
    for m in 0u16..=LEGAL_EVENT_BITS {
        let e = Event::from_bits(m).unwrap();
        assert_eq!(e.is_readable(), m & READABLE_BITS != 0);
        assert_eq!(e.is_writable(), m & WRITABLE_BITS != 0);
        assert_eq!(e.is_error(), m & ERROR_BITS != 0);
        assert_eq!(e.is_hangup(), m & POLLHUP != 0);
    }
}

#[test]
fn hangup_is_independent_and_not_an_error() {
    let hup = Event::from_bits(POLLHUP).unwrap();
    assert!(hup.is_hangup());
    assert!(!hup.is_error());
    assert!(!hup.is_readable());
    assert!(!hup.is_writable());
}

#[test]
fn decoded_events_recompose_to_the_original_mask() {
    for m in 0u16..=LEGAL_EVENT_BITS {
        let parts = decode_mask(m).unwrap();
        let mut rebuilt = Event::empty();
        for e in parts {
            assert_eq!(e.bits().count_ones(), 1);
            rebuilt = rebuilt.union(e);
        }
        assert_eq!(rebuilt.bits(), m);
    }
}

#[test]
fn wire_conversions_carry_the_value() {
    assert_eq!(i16::from(Event::all_error()), (POLLERR | POLLNVAL) as i16);
    assert_eq!(i16::from(Event::from_bits(POLLIN).unwrap()), 1);
    assert_eq!(i16::from(Event::empty()), 0);
}

#[test]
fn union_and_intersects_follow_the_bits() {
    let a = Event::from_bits(POLLIN | POLLERR).unwrap();
    let b = Event::from_bits(POLLOUT).unwrap();
    assert_eq!(a.union(b).bits(), POLLIN | POLLERR | POLLOUT);
    assert!(!a.intersects(b));
    assert!(a.intersects(Event::all_error()));
    assert_eq!(Event::empty().bits(), 0);
    assert!(!Event::empty().intersects(a));
}
