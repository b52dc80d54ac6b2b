//! Descriptor duplication through the capability interface.

use pipemux::{Pollable, Reader};

#[test]
fn test_dup() {
    let (rd, _wr) = pipemux::new().unwrap();
    let duped = rd.dup();
    assert!(duped.is_ok());
}

#[test]
fn dup_returns_a_distinct_descriptor() {
    let (rd, _wr) = pipemux::new().unwrap();
    let duped = rd.dup().unwrap();
    assert_ne!(duped.as_raw_fd(), rd.as_raw_fd());
    assert!(duped.as_raw_fd() >= 0);
}

#[test]
fn dup_yields_an_independent_working_end() {
    let (mut rd, mut wr) = pipemux::new().unwrap();
    let mut copy = wr.dup().unwrap();
    copy.write(b"via-copy").unwrap();
    drop(copy);
    wr.write(b"!").unwrap();
    let mut buf: Vec<u8> = Vec::new();
    rd.read_to_end(&mut buf).unwrap();
    assert_eq!(buf, b"via-copy!".to_vec());
}

#[test]
fn dup_of_invalid_descriptor_fails() {
    let bad: Reader = Reader::from_fd(-1);
    assert!(bad.dup().is_err());
}
