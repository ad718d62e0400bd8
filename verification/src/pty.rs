//! The pty device: allocation, lifecycle, size control, byte transport, and
//! the split/unsplit ownership model.

use vstd::prelude::*;

use std::sync::Arc;

use rustix::fd::OwnedFd;

use crate::error::{Error, IoctlOp};
use crate::flags::add_flag;
use crate::poll::{ReadAttempt, WriteAttempt};
use crate::sys;
use crate::types::Size;

verus! {

/// The abstract state of a pty device or of one of its halves: the identity
/// token of the underlying master descriptor, whether the descriptor has been
/// put into non-blocking mode, and the pair of raw OS codes with which this
/// platform reports a would-block condition, recorded when the device is
/// created. The token is the master's descriptor number; the kernel never
/// assigns that number to a second descriptor while the first is open (see
/// the trusted boundary's descriptor-number wrapper), so two devices alive at
/// the same time always carry distinct tokens.
pub struct PtyModel {
    pub id: u64,
    pub nonblocking: bool,
    pub would_block: (i32, i32),
}

impl PtyModel {
    /// Whether `code` is one of the would-block codes this device recorded.
    pub open spec fn is_would_block(self, code: i32) -> bool {
        code == self.would_block.0 || code == self.would_block.1
    }
}

/// An allocated pty. Owns the master descriptor exclusively (or shares it
/// with the halves it was split into) and releases it exactly once, when the
/// last owner is dropped.
#[derive(Debug)]
pub struct Pty {
    fd: Arc<OwnedFd>,
    id: u64,
    nonblocking: bool,
    would_block: (i32, i32),
}

impl View for Pty {
    type V = PtyModel;

    closed spec fn view(&self) -> PtyModel {
        PtyModel { id: self.id, nonblocking: self.nonblocking, would_block: self.would_block }
    }
}

/// The child end of the pty: an opened descriptor for the subordinate device
/// node. May be derived repeatedly from one open [`Pty`]; note that some
/// platforms invalidate the node once every descriptor for it is closed.
#[derive(Debug)]
pub struct Pts {
    fd: OwnedFd,
}

/// Allocate a new pty pair: grant and unlock the subordinate, mark the master
/// close-on-exec, and open the subordinate node once.
///
/// The master starts out in blocking mode. Allocation failures are reported
/// as [`Error::AllocationFailed`]; a failure to resolve or open the
/// subordinate node as [`Error::OpenFailed`], each carrying the OS error
/// code.
pub fn open() -> (r: Result<(Pty, Pts), Error>)
    ensures
        r matches Ok(pair) ==> !pair.0@.nonblocking,
        r matches Err(e) ==> (e matches Error::AllocationFailed(_) || e matches Error::OpenFailed(
            _,
        )),
{
    let master = match sys::openpt() {
        Ok(fd) => fd,
        Err(code) => return Err(Error::AllocationFailed(code)),
    };
    if let Err(code) = sys::grantpt(&master) {
        return Err(Error::AllocationFailed(code));
    }
    if let Err(code) = sys::unlockpt(&master) {
        return Err(Error::AllocationFailed(code));
    }
    let flags = match sys::get_fd_flags(&master) {
        Ok(flags) => flags,
        Err(code) => return Err(Error::AllocationFailed(code)),
    };
    if let Err(code) = sys::set_fd_flags(&master, add_flag(flags, sys::cloexec_flag_bits())) {
        return Err(Error::AllocationFailed(code));
    }
    let pts = match derive_subordinate(&master) {
        Ok(pts) => pts,
        Err(e) => return Err(e),
    };
    let id = sys::raw_descriptor(&master) as u64;
    let would_block = sys::would_block_codes();
    Ok((Pty { fd: Arc::new(master), id, nonblocking: false, would_block }, pts))
}

/// Resolve the subordinate device path for this master and open it
/// read-write.
fn derive_subordinate(fd: &OwnedFd) -> (r: Result<Pts, Error>)
    ensures
        r matches Err(e) ==> e matches Error::OpenFailed(_),
{
    let name = match sys::subordinate_name(fd) {
        Ok(name) => name,
        Err(code) => return Err(Error::OpenFailed(code)),
    };
    let node = match sys::open_device(name.as_slice()) {
        Ok(fd) => fd,
        Err(code) => return Err(Error::OpenFailed(code)),
    };
    Ok(Pts { fd: node })
}

/// Issue the window-size ioctl on a master descriptor.
fn set_size_of(fd: &OwnedFd, size: Size) -> (r: Result<(), Error>)
    ensures
        r matches Err(e) ==> e matches Error::IoctlFailed(IoctlOp::SetWindowSize, _),
{
    match sys::set_window_size(fd, size) {
        Ok(()) => Ok(()),
        Err(code) => Err(Error::IoctlFailed(IoctlOp::SetWindowSize, code)),
    }
}

/// Read at most `max` bytes from a master descriptor, blocking-mode
/// semantics: any failure, would-block included, is surfaced as an I/O error
/// with its OS code.
fn read_from(fd: &OwnedFd, max: usize) -> (r: Result<Vec<u8>, Error>)
    ensures
        r matches Ok(bytes) ==> bytes@.len() <= max,
        r matches Err(e) ==> e matches Error::IoError(_),
{
    match sys::read_raw(fd, max) {
        Ok(bytes) => Ok(bytes),
        Err(code) => Err(Error::IoError(code)),
    }
}

/// Write a prefix of `data` to a master descriptor, blocking-mode semantics.
fn write_to(fd: &OwnedFd, data: &[u8]) -> (r: Result<usize, Error>)
    ensures
        r matches Ok(count) ==> count <= data@.len(),
        r matches Err(e) ==> e matches Error::IoError(_),
{
    match sys::write_raw(fd, data) {
        Ok(count) => Ok(count),
        Err(code) => Err(Error::IoError(code)),
    }
}

/// One read attempt, classified against the device's recorded would-block
/// codes: a failure is reported as would-block exactly when it carries one of
/// them, so a `Failed` outcome never holds a would-block code.
fn attempt_read(fd: &OwnedFd, codes: (i32, i32), max: usize) -> (attempt: ReadAttempt)
    ensures
        attempt matches ReadAttempt::Data(bytes) ==> bytes@.len() <= max,
        attempt matches ReadAttempt::WouldBlock(code) ==> (code == codes.0 || code == codes.1),
        attempt matches ReadAttempt::Failed(code) ==> !(code == codes.0 || code == codes.1),
{
    match sys::read_raw(fd, max) {
        Ok(bytes) => ReadAttempt::Data(bytes),
        Err(code) => {
            if code == codes.0 || code == codes.1 {
                ReadAttempt::WouldBlock(code)
            } else {
                ReadAttempt::Failed(code)
            }
        }
    }
}

/// One write attempt, classified against the device's recorded would-block
/// codes, as for reads.
fn attempt_write(fd: &OwnedFd, codes: (i32, i32), data: &[u8]) -> (attempt: WriteAttempt)
    ensures
        attempt matches WriteAttempt::Wrote(count) ==> count <= data@.len(),
        attempt matches WriteAttempt::WouldBlock(code) ==> (code == codes.0 || code == codes.1),
        attempt matches WriteAttempt::Failed(code) ==> !(code == codes.0 || code == codes.1),
{
    match sys::write_raw(fd, data) {
        Ok(count) => WriteAttempt::Wrote(count),
        Err(code) => {
            if code == codes.0 || code == codes.1 {
                WriteAttempt::WouldBlock(code)
            } else {
                WriteAttempt::Failed(code)
            }
        }
    }
}

impl Pty {
    /// Use the provided descriptor as a pty master. Later operations succeed
    /// only if it really references one; they fail with typed errors
    /// otherwise. The device is taken to be in blocking mode: call
    /// [`Pty::set_nonblocking`] (idempotent) before async use.
    pub fn from_fd(fd: OwnedFd) -> (r: Pty)
        ensures
            !r@.nonblocking,
    {
        let id = sys::raw_descriptor(&fd) as u64;
        let would_block = sys::would_block_codes();
        Pty { fd: Arc::new(fd), id, nonblocking: false, would_block }
    }

    /// Release the device as its bare master descriptor. Possible only while
    /// no split half shares the device's cell; in this crate an unsplit
    /// device is always the sole owner, since splitting consumes the device
    /// and reunification drops the write half's reference. A device that is
    /// somehow still shared comes back unchanged.
    pub fn into_fd(self) -> (r: Result<OwnedFd, Pty>)
        ensures
            r matches Err(pty) ==> pty@ == self@,
    {
        let Pty { fd, id, nonblocking, would_block } = self;
        match sys::unwrap_descriptor(fd) {
            Ok(inner) => Ok(inner),
            Err(back) => Err(Pty { fd: back, id, nonblocking, would_block }),
        }
    }

    /// Change the terminal size associated with the pty. The kernel delivers
    /// a window-change signal to the foreground process group of the
    /// subordinate's session as a side effect.
    pub fn resize(&self, size: Size) -> (r: Result<(), Error>)
        ensures
            r matches Err(e) ==> e matches Error::IoctlFailed(IoctlOp::SetWindowSize, _),
    {
        set_size_of(&*self.fd, size)
    }

    /// The terminal size currently recorded in the kernel for this pty.
    pub fn size(&self) -> (r: Result<Size, Error>)
        ensures
            r matches Err(e) ==> e matches Error::IoError(_),
    {
        match sys::get_window_size(&*self.fd) {
            Ok(size) => Ok(size),
            Err(code) => Err(Error::IoError(code)),
        }
    }

    /// Open the subordinate end of this pty. Callable more than once while
    /// the pty is open, so several children can be spawned onto one pty in
    /// sequence.
    pub fn pts(&self) -> (r: Result<Pts, Error>)
        ensures
            r matches Err(e) ==> e matches Error::OpenFailed(_),
    {
        derive_subordinate(&*self.fd)
    }

    /// Add non-blocking mode to the master's status flags, by a
    /// read-modify-write update of the flag word. Idempotent: a second call
    /// writes back the word the first one wrote. Required before driving the
    /// pty through the readiness-driven adapter.
    pub fn set_nonblocking(&mut self) -> (r: Result<(), Error>)
        ensures
            final(self)@.id == old(self)@.id,
            r is Ok ==> final(self)@.nonblocking,
            r is Err ==> final(self)@.nonblocking == old(self)@.nonblocking,
            r matches Err(e) ==> e matches Error::IoError(_),
    {
        let flags = match sys::get_status_flags(&*self.fd) {
            Ok(flags) => flags,
            Err(code) => return Err(Error::IoError(code)),
        };
        let updated = add_flag(flags, sys::nonblock_flag_bits());
        match sys::set_status_flags(&*self.fd, updated) {
            Ok(()) => {
                self.nonblocking = true;
                Ok(())
            }
            Err(code) => Err(Error::IoError(code)),
        }
    }

    /// Whether the master has been put into non-blocking mode.
    pub fn is_nonblocking(&self) -> (r: bool)
        ensures
            r == self@.nonblocking,
    {
        self.nonblocking
    }

    /// Read at most `max` bytes from the master.
    pub fn read(&self, max: usize) -> (r: Result<Vec<u8>, Error>)
        ensures
            r matches Ok(bytes) ==> bytes@.len() <= max,
            r matches Err(e) ==> e matches Error::IoError(_),
    {
        read_from(&*self.fd, max)
    }

    /// Write a prefix of `data` to the master, returning how many bytes the
    /// kernel accepted.
    pub fn write(&self, data: &[u8]) -> (r: Result<usize, Error>)
        ensures
            r matches Ok(count) ==> count <= data@.len(),
            r matches Err(e) ==> e matches Error::IoError(_),
    {
        write_to(&*self.fd, data)
    }

    /// A pty performs no userspace buffering, so flushing always succeeds.
    pub fn flush(&self) -> (r: Result<(), Error>)
        ensures
            r is Ok,
    {
        Ok(())
    }

    /// One non-blocking read attempt, for a readiness-driven loop. A failure
    /// is reported as [`ReadAttempt::WouldBlock`] exactly when it carries one
    /// of the device's recorded would-block codes, so a terminal
    /// [`ReadAttempt::Failed`] never holds a would-block condition.
    pub fn try_read(&self, max: usize) -> (attempt: ReadAttempt)
        ensures
            attempt matches ReadAttempt::Data(bytes) ==> bytes@.len() <= max,
            attempt matches ReadAttempt::WouldBlock(code) ==> self@.is_would_block(code),
            attempt matches ReadAttempt::Failed(code) ==> !self@.is_would_block(code),
    {
        attempt_read(&*self.fd, self.would_block, max)
    }

    /// One non-blocking write attempt, for a readiness-driven loop, with the
    /// same would-block classification as [`Pty::try_read`].
    pub fn try_write(&self, data: &[u8]) -> (attempt: WriteAttempt)
        ensures
            attempt matches WriteAttempt::Wrote(count) ==> count <= data@.len(),
            attempt matches WriteAttempt::WouldBlock(code) ==> self@.is_would_block(code),
            attempt matches WriteAttempt::Failed(code) ==> !self@.is_would_block(code),
    {
        attempt_write(&*self.fd, self.would_block, data)
    }

    /// The raw descriptor number of the master, for registration with a
    /// readiness-reporting reactor.
    pub fn as_raw_fd(&self) -> (r: i32)
        ensures
            0 <= r,
    {
        sys::raw_descriptor(&*self.fd)
    }

    /// Split into a borrowed read half and a borrowed write half, tied to the
    /// borrow's lifetime. Allocates nothing.
    pub fn split<'a>(&'a self) -> (halves: (ReadPty<'a>, WritePty<'a>))
        ensures
            halves.0@ == self@,
            halves.1@ == self@,
    {
        (ReadPty { pty: self }, WritePty { pty: self })
    }

    /// Split into an owned read half and an owned write half that can move to
    /// independent tasks. Allocates one shared cell; both halves reference
    /// it, and [`OwnedReadPty::unsplit`] can reunify them into the original
    /// device.
    pub fn into_split(self) -> (halves: (OwnedReadPty, OwnedWritePty))
        ensures
            halves.0@ == self@,
            halves.1@ == self@,
    {
        let shared = sys::share_descriptor(&self.fd);
        let Pty { fd, id, nonblocking, would_block } = self;
        (
            OwnedReadPty { fd: shared, id, nonblocking, would_block },
            OwnedWritePty { fd, id, nonblocking, would_block },
        )
    }
}

impl Pts {
    /// Use the provided descriptor as a subordinate handle. Later operations
    /// succeed only if it really references the child end of a pty.
    pub fn from_fd(fd: OwnedFd) -> Pts {
        Pts { fd }
    }

    /// Release this handle as its bare descriptor.
    pub fn into_fd(self) -> OwnedFd {
        self.fd
    }

    /// Three fresh duplicates of the subordinate descriptor, destined for a
    /// child's standard input, output and error streams. Each duplicate has
    /// close-on-exec clear, so it survives into the spawned child.
    pub fn setup_subprocess(&self) -> (r: Result<(OwnedFd, OwnedFd, OwnedFd), Error>)
        ensures
            r matches Err(e) ==> e matches Error::SpawnFailed(_),
    {
        let stdin = match sys::duplicate(&self.fd) {
            Ok(fd) => fd,
            Err(code) => return Err(Error::SpawnFailed(code)),
        };
        let stdout = match sys::duplicate(&self.fd) {
            Ok(fd) => fd,
            Err(code) => return Err(Error::SpawnFailed(code)),
        };
        let stderr = match sys::duplicate(&self.fd) {
            Ok(fd) => fd,
            Err(code) => return Err(Error::SpawnFailed(code)),
        };
        Ok((stdin, stdout, stderr))
    }

    /// A close-on-exec duplicate of the subordinate, for the session-setup
    /// step that runs in the child between fork and exec: the duplicate is
    /// usable there and is closed automatically by the exec.
    pub fn session_handle(&self) -> (r: Result<Pts, Error>)
        ensures
            r matches Err(e) ==> e matches Error::SpawnFailed(_),
    {
        match sys::duplicate_cloexec(&self.fd) {
            Ok(fd) => Ok(Pts { fd }),
            Err(code) => Err(Error::SpawnFailed(code)),
        }
    }

    /// The ordered session-setup sequence, run in the child between fork and
    /// exec; every step is async-signal-safe. First create a new session,
    /// detaching from any inherited controlling terminal; only once that
    /// succeeded, assign this subordinate as the controlling terminal of the
    /// new session — so terminal assignment is never applied to a half-formed
    /// session. A failure of the first step is reported as
    /// [`Error::SpawnFailed`], a failure of the second as
    /// [`Error::IoctlFailed`]; an ioctl error therefore implies the session
    /// was created.
    pub fn session_leader(&self) -> (r: Result<(), Error>)
        ensures
            r matches Err(e) ==> (e matches Error::SpawnFailed(_) || e matches Error::IoctlFailed(
                IoctlOp::SetControllingTerminal,
                _,
            )),
    {
        if let Err(code) = sys::create_session() {
            return Err(Error::SpawnFailed(code));
        }
        match sys::set_controlling_terminal(&self.fd) {
            Ok(()) => Ok(()),
            Err(code) => Err(Error::IoctlFailed(IoctlOp::SetControllingTerminal, code)),
        }
    }

    /// The raw descriptor number of this subordinate handle.
    pub fn as_raw_fd(&self) -> (r: i32)
        ensures
            0 <= r,
    {
        sys::raw_descriptor(&self.fd)
    }
}

/// Borrowed read half of a [`Pty`].
pub struct ReadPty<'a> {
    pty: &'a Pty,
}

impl<'a> View for ReadPty<'a> {
    type V = PtyModel;

    closed spec fn view(&self) -> PtyModel {
        self.pty@
    }
}

impl<'a> ReadPty<'a> {
    /// Read at most `max` bytes from the master.
    pub fn read(&self, max: usize) -> (r: Result<Vec<u8>, Error>)
        ensures
            r matches Ok(bytes) ==> bytes@.len() <= max,
            r matches Err(e) ==> e matches Error::IoError(_),
    {
        self.pty.read(max)
    }

    /// One non-blocking read attempt, for a readiness-driven loop, classified
    /// as by [`Pty::try_read`].
    pub fn try_read(&self, max: usize) -> (attempt: ReadAttempt)
        ensures
            attempt matches ReadAttempt::Data(bytes) ==> bytes@.len() <= max,
            attempt matches ReadAttempt::WouldBlock(code) ==> self@.is_would_block(code),
            attempt matches ReadAttempt::Failed(code) ==> !self@.is_would_block(code),
    {
        self.pty.try_read(max)
    }
}

/// Borrowed write half of a [`Pty`].
pub struct WritePty<'a> {
    pty: &'a Pty,
}

impl<'a> View for WritePty<'a> {
    type V = PtyModel;

    closed spec fn view(&self) -> PtyModel {
        self.pty@
    }
}

impl<'a> WritePty<'a> {
    /// Write a prefix of `data` to the master.
    pub fn write(&self, data: &[u8]) -> (r: Result<usize, Error>)
        ensures
            r matches Ok(count) ==> count <= data@.len(),
            r matches Err(e) ==> e matches Error::IoError(_),
    {
        self.pty.write(data)
    }

    /// One non-blocking write attempt, for a readiness-driven loop,
    /// classified as by [`Pty::try_write`].
    pub fn try_write(&self, data: &[u8]) -> (attempt: WriteAttempt)
        ensures
            attempt matches WriteAttempt::Wrote(count) ==> count <= data@.len(),
            attempt matches WriteAttempt::WouldBlock(code) ==> self@.is_would_block(code),
            attempt matches WriteAttempt::Failed(code) ==> !self@.is_would_block(code),
    {
        self.pty.try_write(data)
    }

    /// A pty performs no userspace buffering, so flushing always succeeds.
    pub fn flush(&self) -> (r: Result<(), Error>)
        ensures
            r is Ok,
    {
        Ok(())
    }

    /// Change the terminal size associated with the pty.
    pub fn resize(&self, size: Size) -> (r: Result<(), Error>)
        ensures
            r matches Err(e) ==> e matches Error::IoctlFailed(IoctlOp::SetWindowSize, _),
    {
        self.pty.resize(size)
    }
}

/// Owned read half of a [`Pty`], produced by [`Pty::into_split`].
#[derive(Debug)]
pub struct OwnedReadPty {
    fd: Arc<OwnedFd>,
    id: u64,
    nonblocking: bool,
    would_block: (i32, i32),
}

impl View for OwnedReadPty {
    type V = PtyModel;

    closed spec fn view(&self) -> PtyModel {
        PtyModel { id: self.id, nonblocking: self.nonblocking, would_block: self.would_block }
    }
}

impl OwnedReadPty {
    /// Read at most `max` bytes from the master.
    pub fn read(&self, max: usize) -> (r: Result<Vec<u8>, Error>)
        ensures
            r matches Ok(bytes) ==> bytes@.len() <= max,
            r matches Err(e) ==> e matches Error::IoError(_),
    {
        read_from(&*self.fd, max)
    }

    /// One non-blocking read attempt, for a readiness-driven loop, classified
    /// as by [`Pty::try_read`].
    pub fn try_read(&self, max: usize) -> (attempt: ReadAttempt)
        ensures
            attempt matches ReadAttempt::Data(bytes) ==> bytes@.len() <= max,
            attempt matches ReadAttempt::WouldBlock(code) ==> self@.is_would_block(code),
            attempt matches ReadAttempt::Failed(code) ==> !self@.is_would_block(code),
    {
        attempt_read(&*self.fd, self.would_block, max)
    }

    /// Attempt to join the two halves of a pty back into a single device.
    ///
    /// Succeeds exactly when both halves carry the identity of one shared
    /// cell — that is, when they came from the same [`Pty::into_split`] call;
    /// the write half's reference is then released and the read half's
    /// becomes the device's. On a mismatch both halves are returned unchanged
    /// inside [`Error::UnsplitMismatch`], a recoverable condition.
    pub fn unsplit(self, write_half: OwnedWritePty) -> (r: Result<Pty, Error>)
        ensures
            r is Ok <==> self@.id == write_half@.id,
            r matches Ok(pty) ==> pty@ == self@,
            self@.id != write_half@.id ==> r == Result::<Pty, Error>::Err(
                Error::UnsplitMismatch(self, write_half),
            ),
    {
        if self.id == write_half.id {
            let OwnedReadPty { fd, id, nonblocking, would_block } = self;
            Ok(Pty { fd, id, nonblocking, would_block })
        } else {
            Err(Error::UnsplitMismatch(self, write_half))
        }
    }
}

/// Owned write half of a [`Pty`], produced by [`Pty::into_split`].
#[derive(Debug)]
pub struct OwnedWritePty {
    fd: Arc<OwnedFd>,
    id: u64,
    nonblocking: bool,
    would_block: (i32, i32),
}

impl View for OwnedWritePty {
    type V = PtyModel;

    closed spec fn view(&self) -> PtyModel {
        PtyModel { id: self.id, nonblocking: self.nonblocking, would_block: self.would_block }
    }
}

impl OwnedWritePty {
    /// Write a prefix of `data` to the master.
    pub fn write(&self, data: &[u8]) -> (r: Result<usize, Error>)
        ensures
            r matches Ok(count) ==> count <= data@.len(),
            r matches Err(e) ==> e matches Error::IoError(_),
    {
        write_to(&*self.fd, data)
    }

    /// One non-blocking write attempt, for a readiness-driven loop,
    /// classified as by [`Pty::try_write`].
    pub fn try_write(&self, data: &[u8]) -> (attempt: WriteAttempt)
        ensures
            attempt matches WriteAttempt::Wrote(count) ==> count <= data@.len(),
            attempt matches WriteAttempt::WouldBlock(code) ==> self@.is_would_block(code),
            attempt matches WriteAttempt::Failed(code) ==> !self@.is_would_block(code),
    {
        attempt_write(&*self.fd, self.would_block, data)
    }

    /// A pty performs no userspace buffering, so flushing always succeeds.
    pub fn flush(&self) -> (r: Result<(), Error>)
        ensures
            r is Ok,
    {
        Ok(())
    }

    /// Change the terminal size associated with the pty.
    pub fn resize(&self, size: Size) -> (r: Result<(), Error>)
        ensures
            r matches Err(e) ==> e matches Error::IoctlFailed(IoctlOp::SetWindowSize, _),
    {
        set_size_of(&*self.fd, size)
    }
}

} // verus!
