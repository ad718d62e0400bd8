//! Trusted boundary to the operating system.
//!
//! Every function here wraps exactly one call into the `rustix` crate (or, for
//! descriptor sharing, the standard library) and converts its arguments and
//! result between plain library values and the outside types. Verus believes
//! the stated contracts; nothing more is claimed than the wrapped call's
//! documentation promises. All pty logic built on these wrappers is verified.

use vstd::prelude::*;

use std::sync::Arc;

use rustix::fd::OwnedFd;

use crate::types::Size;

verus! {

#[verifier::external_type_specification]
#[verifier::external_body]
pub struct ExOwnedFd(rustix::fd::OwnedFd);

/// Relies on rustix::pty::openpt: opens a new pseudoterminal master,
/// read-write, without making it the controlling terminal.
#[verifier::external_body]
pub(crate) fn openpt() -> (r: Result<OwnedFd, i32>) {
    match rustix::pty::openpt(rustix::pty::OpenptFlags::RDWR | rustix::pty::OpenptFlags::NOCTTY) {
        Ok(fd) => Ok(fd),
        Err(e) => Err(e.raw_os_error()),
    }
}

/// Relies on rustix::pty::grantpt: grants access to the subordinate device.
#[verifier::external_body]
pub(crate) fn grantpt(fd: &OwnedFd) -> (r: Result<(), i32>) {
    match rustix::pty::grantpt(fd) {
        Ok(()) => Ok(()),
        Err(e) => Err(e.raw_os_error()),
    }
}

/// Relies on rustix::pty::unlockpt: unlocks the subordinate device.
#[verifier::external_body]
pub(crate) fn unlockpt(fd: &OwnedFd) -> (r: Result<(), i32>) {
    match rustix::pty::unlockpt(fd) {
        Ok(()) => Ok(()),
        Err(e) => Err(e.raw_os_error()),
    }
}

/// Relies on rustix::pty::ptsname: returns the path of the subordinate
/// device belonging to this master.
#[verifier::external_body]
pub(crate) fn subordinate_name(fd: &OwnedFd) -> (r: Result<Vec<u8>, i32>) {
    match rustix::pty::ptsname(fd, Vec::new()) {
        Ok(name) => Ok(name.into_bytes()),
        Err(e) => Err(e.raw_os_error()),
    }
}

/// Relies on rustix::fs::open: opens the given path read-write without
/// acquiring it as controlling terminal, returning an owned descriptor.
#[verifier::external_body]
pub(crate) fn open_device(path: &[u8]) -> (r: Result<OwnedFd, i32>) {
    match rustix::fs::open(
        path,
        rustix::fs::OFlags::RDWR | rustix::fs::OFlags::NOCTTY,
        rustix::fs::Mode::empty(),
    ) {
        Ok(fd) => Ok(fd),
        Err(e) => Err(e.raw_os_error()),
    }
}

/// Relies on rustix::io::fcntl_getfd: reads the descriptor's close-on-exec
/// flag word.
#[verifier::external_body]
pub(crate) fn get_fd_flags(fd: &OwnedFd) -> (r: Result<u32, i32>) {
    match rustix::io::fcntl_getfd(fd) {
        Ok(flags) => Ok(flags.bits()),
        Err(e) => Err(e.raw_os_error()),
    }
}

/// Relies on rustix::io::fcntl_setfd: writes the descriptor's close-on-exec
/// flag word.
#[verifier::external_body]
pub(crate) fn set_fd_flags(fd: &OwnedFd, flags: u32) -> (r: Result<(), i32>) {
    match rustix::io::fcntl_setfd(fd, rustix::io::FdFlags::from_bits_retain(flags)) {
        Ok(()) => Ok(()),
        Err(e) => Err(e.raw_os_error()),
    }
}

/// Relies on rustix::io::FdFlags: the platform's close-on-exec flag bit.
#[verifier::external_body]
pub(crate) fn cloexec_flag_bits() -> (r: u32) {
    rustix::io::FdFlags::CLOEXEC.bits()
}

/// Relies on rustix::fs::fcntl_getfl: reads the descriptor's status flag
/// word.
#[verifier::external_body]
pub(crate) fn get_status_flags(fd: &OwnedFd) -> (r: Result<u32, i32>) {
    match rustix::fs::fcntl_getfl(fd) {
        Ok(flags) => Ok(flags.bits()),
        Err(e) => Err(e.raw_os_error()),
    }
}

/// Relies on rustix::fs::fcntl_setfl: writes the descriptor's status flag
/// word.
#[verifier::external_body]
pub(crate) fn set_status_flags(fd: &OwnedFd, flags: u32) -> (r: Result<(), i32>) {
    match rustix::fs::fcntl_setfl(fd, rustix::fs::OFlags::from_bits_retain(flags)) {
        Ok(()) => Ok(()),
        Err(e) => Err(e.raw_os_error()),
    }
}

/// Relies on rustix::fs::OFlags: the platform's non-blocking status flag bit.
#[verifier::external_body]
pub(crate) fn nonblock_flag_bits() -> (r: u32) {
    rustix::fs::OFlags::NONBLOCK.bits()
}

/// Relies on rustix::termios::tcsetwinsize: sets the terminal window size
/// recorded in the kernel for this pty.
#[verifier::external_body]
pub(crate) fn set_window_size(fd: &OwnedFd, size: Size) -> (r: Result<(), i32>) {
    let winsize = rustix::termios::Winsize {
        ws_row: size.row,
        ws_col: size.col,
        ws_xpixel: size.xpixel,
        ws_ypixel: size.ypixel,
    };
    match rustix::termios::tcsetwinsize(fd, winsize) {
        Ok(()) => Ok(()),
        Err(e) => Err(e.raw_os_error()),
    }
}

/// Relies on rustix::termios::tcgetwinsize: reads the terminal window size
/// recorded in the kernel for this pty.
#[verifier::external_body]
pub(crate) fn get_window_size(fd: &OwnedFd) -> (r: Result<Size, i32>) {
    match rustix::termios::tcgetwinsize(fd) {
        Ok(winsize) => Ok(Size {
            row: winsize.ws_row,
            col: winsize.ws_col,
            xpixel: winsize.ws_xpixel,
            ypixel: winsize.ws_ypixel,
        }),
        Err(e) => Err(e.raw_os_error()),
    }
}

/// Relies on rustix::io::read: reads at most `max` bytes from the
/// descriptor; a failure carries the raw OS error code.
#[verifier::external_body]
pub(crate) fn read_raw(fd: &OwnedFd, max: usize) -> (r: Result<Vec<u8>, i32>)
    ensures
        r matches Ok(v) ==> v@.len() <= max,
{
    let mut buf = vec![0u8; max];
    match rustix::io::read(fd, &mut buf[..]) {
        Ok(n) => {
            buf.truncate(n);
            Ok(buf)
        }
        Err(e) => Err(e.raw_os_error()),
    }
}

/// Relies on rustix::io::write: writes a prefix of `buf` to the descriptor
/// and reports how many bytes the kernel accepted; a failure carries the raw
/// OS error code.
#[verifier::external_body]
pub(crate) fn write_raw(fd: &OwnedFd, buf: &[u8]) -> (r: Result<usize, i32>)
    ensures
        r matches Ok(n) ==> n <= buf@.len(),
{
    match rustix::io::write(fd, buf) {
        Ok(n) => Ok(n),
        Err(e) => Err(e.raw_os_error()),
    }
}

/// Relies on rustix::io::Errno::raw_os_error, applied to the WOULDBLOCK and
/// AGAIN errno values: the raw codes with which the platform reports a
/// would-block condition. Each device records the pair when it is created,
/// and the verified retry discipline classifies failures against it.
#[verifier::external_body]
pub(crate) fn would_block_codes() -> (r: (i32, i32)) {
    (
        rustix::io::Errno::WOULDBLOCK.raw_os_error(),
        rustix::io::Errno::AGAIN.raw_os_error(),
    )
}

/// Relies on rustix::io::dup: duplicates the descriptor; the duplicate
/// references the same open file description and has close-on-exec clear.
#[verifier::external_body]
pub(crate) fn duplicate(fd: &OwnedFd) -> (r: Result<OwnedFd, i32>) {
    match rustix::io::dup(fd) {
        Ok(dup) => Ok(dup),
        Err(e) => Err(e.raw_os_error()),
    }
}

/// Relies on rustix::io::fcntl_dupfd_cloexec: duplicates the descriptor with
/// close-on-exec set, so the duplicate does not survive an exec.
#[verifier::external_body]
pub(crate) fn duplicate_cloexec(fd: &OwnedFd) -> (r: Result<OwnedFd, i32>) {
    match rustix::io::fcntl_dupfd_cloexec(fd, 0) {
        Ok(dup) => Ok(dup),
        Err(e) => Err(e.raw_os_error()),
    }
}

/// Relies on rustix::process::setsid: creates a new session with the calling
/// process as leader and returns the new session id, which is positive.
#[verifier::external_body]
pub(crate) fn create_session() -> (r: Result<i32, i32>)
    ensures
        r matches Ok(pid) ==> pid > 0,
{
    match rustix::process::setsid() {
        Ok(pid) => Ok(pid.as_raw_nonzero().get()),
        Err(e) => Err(e.raw_os_error()),
    }
}

/// Relies on rustix::process::ioctl_tiocsctty: makes the descriptor the
/// controlling terminal of the calling process's session.
#[verifier::external_body]
pub(crate) fn set_controlling_terminal(fd: &OwnedFd) -> (r: Result<(), i32>) {
    match rustix::process::ioctl_tiocsctty(fd) {
        Ok(()) => Ok(()),
        Err(e) => Err(e.raw_os_error()),
    }
}

/// Relies on rustix::fd::AsRawFd::as_raw_fd: returns the raw descriptor
/// number, which for an owned descriptor is non-negative. The kernel never
/// assigns this number to a second descriptor while this one is open, so two
/// simultaneously live owned descriptors always report distinct numbers; the
/// device identity tokens built from this number rely on that, and it is a
/// kernel guarantee no per-call contract can carry.
#[verifier::external_body]
pub(crate) fn raw_descriptor(fd: &OwnedFd) -> (r: i32)
    ensures
        0 <= r,
{
    rustix::fd::AsRawFd::as_raw_fd(fd)
}

/// Relies on std::sync::Arc::clone: the returned handle shares the same
/// allocation as the argument and so holds an equal descriptor.
#[verifier::external_body]
pub(crate) fn share_descriptor(fd: &Arc<OwnedFd>) -> (r: Arc<OwnedFd>)
    ensures
        r == *fd,
{
    Arc::clone(fd)
}

/// Relies on std::sync::Arc::try_unwrap: returns the held descriptor when
/// this handle is the sole owner, or the handle back unchanged otherwise.
#[verifier::external_body]
pub(crate) fn unwrap_descriptor(fd: Arc<OwnedFd>) -> (r: Result<OwnedFd, Arc<OwnedFd>>)
    ensures
        r matches Ok(inner) ==> inner == fd,
        r matches Err(back) ==> back == fd,
{
    Arc::try_unwrap(fd)
}

} // verus!
