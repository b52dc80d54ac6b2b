//! Byte transport over a non-blocking pipe pair.

use pipemux::{OsError, Pollable, Reader, Writer};

#[test]
fn test_new() {
    let r = pipemux::new();
    assert!(r.is_ok());
}

#[test]
fn test_read_write() {
    let test_msg = *b"Hello, world";
    let mut buf: Vec<u8> = vec![0; 12];
    let (mut reader, mut writer) = pipemux::new().unwrap();
    let wrote = writer.write(&test_msg);
    assert!(wrote.is_ok());
    let read = reader.read(&mut buf);
    assert!(read.is_ok());
    assert_eq!(test_msg.to_vec(), buf);
}

#[test]
fn test_read_to_end() {
    let test_msg = b"Hello, world".to_vec();
    let mut buf: Vec<u8> = Vec::with_capacity(6);
    let (mut reader, mut writer) = pipemux::new().unwrap();
    let wrote = writer.write(&test_msg);
    assert!(wrote.is_ok());
    let res = reader.read_to_end(&mut buf);
    assert!(res.is_ok());
    let bytes_read = res.unwrap();
    assert_eq!(bytes_read, test_msg.len());
    assert_eq!(buf, test_msg);
}

fn pattern(n: usize) -> Vec<u8> {
    let mut v = Vec::with_capacity(n);
    for i in 0..n {
        v.push((i % 251) as u8);
    }
    v
}

#[test]
fn write_then_read_round_trips_bytes_in_order() {
    // Byte-for-byte fidelity for sizes from one byte up to the usual OS pipe
    // buffer size.
    for n in [1usize, 2, 100, 4096, 65536] {
        let msg = pattern(n);
        let (mut reader, mut writer) = pipemux::new().unwrap();
        writer.write_all(&msg).unwrap();
        let mut buf: Vec<u8> = Vec::new();
        let got = reader.read_to_end(&mut buf).unwrap();
        assert_eq!(got, n);
        assert_eq!(buf, msg);
    }
}

#[test]
fn read_from_empty_pipe_is_zero_not_error() {
    // Nothing written, peer still open: would-block is absorbed as zero bytes.
    let (mut reader, _writer) = pipemux::new().unwrap();
    let mut buf: Vec<u8> = vec![7; 16];
    let n = reader.read(&mut buf).unwrap();
    assert_eq!(n, 0);
    assert_eq!(buf.len(), 16);
}

#[test]
fn read_to_end_appends_after_existing_contents() {
    let (mut reader, mut writer) = pipemux::new().unwrap();
    writer.write_all(b"tail").unwrap();
    let mut buf: Vec<u8> = b"head".to_vec();
    let n = reader.read_to_end(&mut buf).unwrap();
    assert_eq!(n, 4);
    assert_eq!(buf, b"headtail".to_vec());
}

#[test]
fn read_from_invalid_descriptor_reports_os_error() {
    let mut bad: Reader = Reader::from_fd(-1);
    let mut buf: Vec<u8> = vec![3; 4];
    let err: OsError = bad.read(&mut buf).unwrap_err();
    assert!(err.code > 0);
    assert_ne!(err.code, pipemux::WOULD_BLOCK_CODE);
    assert_eq!(buf, vec![3; 4]);
}

#[test]
fn short_read_leaves_the_buffer_tail_alone() {
    let (mut reader, mut writer) = pipemux::new().unwrap();
    writer.write(b"abcd").unwrap();
    let mut buf: Vec<u8> = vec![7; 16];
    let n = reader.read(&mut buf).unwrap();
    assert_eq!(n, 4);
    assert_eq!(&buf[..4], b"abcd");
    assert_eq!(&buf[4..], &[7u8; 12][..]);
    assert_eq!(buf.len(), 16);
}

#[test]
fn write_all_of_an_empty_buffer_succeeds() {
    let (_reader, mut writer) = pipemux::new().unwrap();
    assert!(writer.write_all(b"").is_ok());
}

#[test]
fn flush_always_succeeds() {
    let (_reader, mut writer) = pipemux::new().unwrap();
    assert!(writer.flush().is_ok());
}

#[test]
fn write_to_invalid_descriptor_reports_os_error() {
    let mut bad: Writer = Writer::from_fd(-1);
    let err = bad.write(b"x").unwrap_err();
    assert!(err.code > 0);
}
