//! Duplication into a caller-chosen descriptor slot. Kept in a binary of its
//! own: taking over a fixed slot must not race other tests' descriptors.

use pipemux::Pollable;

#[test]
fn test_dup2() {
    let test_fd: i32 = 10;
    let (rd, _wr) = pipemux::new().unwrap();
    let duped = rd.dup2(test_fd);
    assert!(duped.is_ok());
    assert_eq!(duped.unwrap().as_raw_fd(), test_fd);
}
