//! Tests of the split/unsplit ownership model: borrowed halves, owned
//! halves, reunification, and the identity check on mismatched halves.

use pty_process::{open, Error, Pty, Size};

/// Read from the master until at least `want` bytes arrived.
fn read_all(pty: &Pty, want: usize) -> Vec<u8> {
    let mut got: Vec<u8> = Vec::new();
    while got.len() < want {
        let chunk = pty.read(256).expect("read from pty failed");
        got.extend_from_slice(&chunk);
    }
    got
}

#[test]
fn split_borrowed_halves() {
    let (pty, _pts) = open().expect("failed to open pty");
    let (read_half, write_half) = pty.split();
    write_half.resize(Size::new(24, 80)).expect("resize through write half failed");
    let written = write_half.write(b"foo\n").expect("write through half failed");
    assert_eq!(written, 4);
    write_half.flush().expect("flush through half failed");
    let mut got: Vec<u8> = Vec::new();
    while got.len() < 5 {
        let chunk = read_half.read(256).expect("read through half failed");
        got.extend_from_slice(&chunk);
    }
    assert_eq!(&got, b"foo\r\n");
}

#[test]
fn split_unsplit_roundtrip() {
    // Halves of one split always reunify, and the device is usable after.
    let (pty, _pts) = open().expect("failed to open pty");
    let (read_half, write_half) = pty.into_split();
    let written = write_half.write(b"foo\n").expect("write through owned half failed");
    assert_eq!(written, 4);
    let mut got: Vec<u8> = Vec::new();
    while got.len() < 5 {
        let chunk = read_half.read(256).expect("read through owned half failed");
        got.extend_from_slice(&chunk);
    }
    assert_eq!(&got, b"foo\r\n");
    let pty = read_half.unsplit(write_half).expect("unsplit of matching halves failed");
    pty.write(b"bar\n").expect("write after unsplit failed");
    assert_eq!(&read_all(&pty, 5), b"bar\r\n");
}

#[test]
fn split_unsplit_mismatch_returns_halves() {
    // Halves of two independently opened devices never reunify; the
    // mismatched halves come back unchanged and remain usable.
    let (first, _first_pts) = open().expect("failed to open first pty");
    let (second, _second_pts) = open().expect("failed to open second pty");
    let (first_read, first_write) = first.into_split();
    let (second_read, second_write) = second.into_split();
    let (first_read, second_write) = match first_read.unsplit(second_write) {
        Ok(_) => panic!("unsplit of mismatched halves unexpectedly succeeded"),
        Err(Error::UnsplitMismatch(read_half, write_half)) => (read_half, write_half),
        Err(other) => panic!("unexpected error kind: {:?}", other.code()),
    };
    // Retry with the matching pairings: both must succeed.
    let first = first_read.unsplit(first_write).expect("matching unsplit failed");
    let second = second_read.unsplit(second_write).expect("matching unsplit failed");
    first.write(b"a\n").expect("write after recovery failed");
    second.write(b"b\n").expect("write after recovery failed");
}

#[test]
fn split_owned_write_resize() {
    let (pty, _pts) = open().expect("failed to open pty");
    let (read_half, write_half) = pty.into_split();
    write_half.resize(Size::new(30, 90)).expect("resize through owned half failed");
    let pty = read_half.unsplit(write_half).expect("unsplit failed");
    assert_eq!(pty.size().expect("size query failed"), Size::new(30, 90));
}
