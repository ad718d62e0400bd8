//! Tests against a real pty device: allocation, line-discipline echo, size
//! control, repeatable subordinate derivation, and non-blocking mode.

use pty_process::{open, Pty, ReadAttempt, Size};

/// Read from the master until at least `want` bytes arrived.
fn read_exactly(pty: &Pty, want: usize) -> Vec<u8> {
    let mut got: Vec<u8> = Vec::new();
    while got.len() < want {
        let chunk = pty.read(256).expect("read from pty failed");
        got.extend_from_slice(&chunk);
    }
    got
}

#[test]
fn device_open_starts_blocking() {
    let (pty, _pts) = open().expect("failed to open pty");
    assert!(!pty.is_nonblocking());
}

#[test]
fn device_line_discipline_echo() {
    // With the subordinate held open and no child attached, the kernel's
    // line discipline still echoes what is written to the master, with
    // newline translated to carriage return plus newline.
    let (pty, _pts) = open().expect("failed to open pty");
    let written = pty.write(b"foo\n").expect("write to pty failed");
    assert_eq!(written, 4);
    let echoed = read_exactly(&pty, 5);
    assert_eq!(&echoed, b"foo\r\n");
}

#[test]
fn device_resize_roundtrip() {
    let (pty, _pts) = open().expect("failed to open pty");
    pty.resize(Size::new(24, 80)).expect("resize failed");
    assert_eq!(pty.size().expect("size query failed"), Size::new(24, 80));
    pty.resize(Size::new_with_pixel(25, 80, 640, 480)).expect("resize failed");
    assert_eq!(pty.size().expect("size query failed"), Size::new_with_pixel(25, 80, 640, 480));
}

#[test]
fn device_subordinate_rederivable() {
    // The subordinate can be derived repeatedly while the pty is open.
    let (pty, first) = open().expect("failed to open pty");
    let second = pty.pts().expect("second subordinate derivation failed");
    let third = pty.pts().expect("third subordinate derivation failed");
    // Each handle is a distinct open descriptor.
    assert_ne!(first.as_raw_fd(), second.as_raw_fd());
    assert_ne!(second.as_raw_fd(), third.as_raw_fd());
}

#[test]
fn device_nonblocking_mode() {
    let (mut pty, _pts) = open().expect("failed to open pty");
    pty.set_nonblocking().expect("set_nonblocking failed");
    assert!(pty.is_nonblocking());
    // A second call must behave the same: the flag update is idempotent.
    pty.set_nonblocking().expect("second set_nonblocking failed");
    assert!(pty.is_nonblocking());
    // Nothing is pending, so a non-blocking read reports would-block rather
    // than blocking or failing.
    assert!(matches!(pty.try_read(16), ReadAttempt::WouldBlock(_)));
    // Once input was echoed, an attempt delivers data.
    pty.write(b"hi\n").expect("write failed");
    let mut delivered: Vec<u8> = Vec::new();
    while delivered.len() < 4 {
        match pty.try_read(16) {
            ReadAttempt::Data(bytes) => delivered.extend_from_slice(&bytes),
            ReadAttempt::WouldBlock(_) => continue,
            ReadAttempt::Failed(code) => panic!("read failed with code {}", code),
        }
    }
    assert_eq!(&delivered, b"hi\r\n");
}

#[test]
fn device_flush_always_succeeds() {
    let (pty, _pts) = open().expect("failed to open pty");
    pty.flush().expect("flush failed");
}

#[test]
fn device_fd_roundtrip() {
    // An unsplit device is the sole owner of its descriptor, so it can be
    // released as a bare descriptor and rebuilt, and still works.
    let (pty, _pts) = open().expect("failed to open pty");
    let fd = pty.into_fd().expect("releasing an unsplit device failed");
    let pty = pty_process::Pty::from_fd(fd);
    assert!(!pty.is_nonblocking());
    pty.write(b"foo\n").expect("write after rebuild failed");
    assert_eq!(&read_exactly(&pty, 5), b"foo\r\n");
}
