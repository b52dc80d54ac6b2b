//! The multiplexer: registration, waiting, and event decoding.

use pipemux::{Event, Poll, PollFd, Timeout, Token, POLLERR, POLLHUP, POLLIN};

#[test]
fn test_pollfd_events() {
    let events = Event::from_bits(POLLIN | POLLERR | POLLHUP).unwrap();
    let mut pfd = PollFd::new(100, events);
    pfd.revents = events.bits();
    let ev_vec: Vec<Event> = pfd.events().unwrap();
    assert_eq!(ev_vec.len(), 3);
    let expected = vec![
        Event::from_bits(POLLIN).unwrap(),
        Event::from_bits(POLLERR).unwrap(),
        Event::from_bits(POLLHUP).unwrap(),
    ];
    assert_eq!(ev_vec, expected);
}

#[test]
fn test_poll_events() {
    let mut poll = Poll::new();
    let (reader, mut writer) = pipemux::new().unwrap();
    poll.register(&reader, Token(0), Event::all_readable().union(Event::all_error()));
    poll.register(&writer, Token(1), Event::all_writable().union(Event::all_error()));
    assert!(poll.poll(Timeout::instant()).is_ok());
    let evs = poll.events();
    let (_, ev) = evs[0];
    assert!(ev.unwrap().is_writable());
    writer.write(b"Hello").unwrap();
    assert!(poll.poll(Timeout::instant()).is_ok());
    let evs = poll.events();
    let (_, ev) = evs[0];
    assert!(ev.unwrap().is_readable());
}

#[test]
fn readable_and_error_bits_decode_to_two_pairs_in_order() {
    // One entry whose result holds {readable, error} yields exactly two
    // events for its token, ascending by bit position; the next decode pass
    // yields nothing more.
    let mut pfd = PollFd::new(7, Event::all_readable());
    pfd.revents = POLLIN | POLLERR;
    let first = pfd.events().unwrap();
    assert_eq!(first.len(), 2);
    assert_eq!(first[0].bits(), POLLIN);
    assert_eq!(first[1].bits(), POLLERR);
    let second = pfd.events().unwrap();
    assert!(second.is_empty());
}

#[test]
fn events_consumption_is_one_shot_per_wait() {
    let mut poll = Poll::new();
    let (_reader, writer) = pipemux::new().unwrap();
    poll.register(&writer, Token(9), Event::all_writable());
    assert!(poll.poll(Timeout::instant()).is_ok());
    let first = poll.events();
    assert!(!first.is_empty());
    let again = poll.events();
    assert!(again.is_empty());
}

#[test]
fn empty_writable_pipe_reports_writable_until_full() {
    let (_reader, mut writer) = pipemux::new().unwrap();
    let tok = Token(3);

    let mut poll = Poll::new();
    poll.register(&writer, tok, Event::all_writable());
    assert!(poll.poll(Timeout::instant()).is_ok());
    let evs = poll.events();
    assert!(evs.iter().any(|(t, e)| *t == tok && e.unwrap().is_writable()));

    // Fill the pipe until the non-blocking write refuses more.
    let chunk = [0x55u8; 4096];
    loop {
        match writer.write(&chunk) {
            Ok(0) => break,
            Ok(_) => continue,
            Err(_) => break,
        }
    }

    // Backpressure is visible through readiness: no writable event now.
    let mut poll = Poll::new();
    poll.register(&writer, tok, Event::all_writable());
    assert!(poll.poll(Timeout::instant()).is_ok());
    let evs = poll.events();
    assert!(!evs.iter().any(|(t, e)| *t == tok && e.unwrap().is_writable()));
}

#[test]
fn written_bytes_make_the_reader_readable() {
    let (reader, mut writer) = pipemux::new().unwrap();
    writer.write(b"ping").unwrap();
    let tok = Token(11);
    let mut poll = Poll::new();
    poll.register(&reader, tok, Event::all_readable());
    let ready = poll.poll(Timeout::instant()).unwrap();
    assert!(ready >= 1);
    let evs = poll.events();
    assert!(evs.iter().any(|(t, e)| *t == tok && e.unwrap().is_readable()));
}

#[test]
fn closing_the_write_end_reports_hangup() {
    let (reader, writer) = pipemux::new().unwrap();
    let tok = Token(5);
    let mut poll = Poll::new();
    poll.register(&reader, tok, Event::all_readable());
    drop(writer);
    assert!(poll.poll(Timeout::secs(1).unwrap()).is_ok());
    let evs = poll.events();
    assert!(evs.iter().any(|(t, e)| *t == tok && e.unwrap().is_hangup()));
}

#[test]
fn unknown_result_bits_surface_as_decode_errors() {
    let mut pfd = PollFd::new(42, Event::all_readable());
    pfd.revents = POLLIN | 0x0400;
    let err = pfd.events().unwrap_err();
    assert_eq!(err.bits, POLLIN | 0x0400);
    assert_eq!(pfd.revents, 0);
}

#[test]
fn token_converts_to_its_integer_value() {
    assert_eq!(usize::from(Token(7)), 7);
    assert_eq!(usize::from(Token(0)), 0);
}

#[test]
fn registering_twice_reports_for_both_entries() {
    let (_reader, writer) = pipemux::new().unwrap();
    let mut poll = Poll::new();
    poll.register(&writer, Token(1), Event::all_writable());
    poll.register(&writer, Token(2), Event::all_writable());
    assert!(poll.poll(Timeout::instant()).is_ok());
    let evs = poll.events();
    assert!(evs.iter().any(|(t, e)| *t == Token(1) && e.unwrap().is_writable()));
    assert!(evs.iter().any(|(t, e)| *t == Token(2) && e.unwrap().is_writable()));
}
