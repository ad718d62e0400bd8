use vstd::prelude::*;

use crate::pty::{OwnedReadPty, OwnedWritePty};

verus! {

/// Which terminal-control operation an [`Error::IoctlFailed`] came from.
#[derive(Debug, Clone, Copy, PartialEq, Eq, Structural)]
pub enum IoctlOp {
    /// The window-size ioctl issued by `resize`.
    SetWindowSize,
    /// The controlling-terminal ioctl issued by the session-setup step.
    SetControllingTerminal,
}

/// Error type for errors from this crate.
///
/// Every operating-system failure carries the originating raw OS error code,
/// so no lower-level error is ever discarded.
#[derive(Debug)]
pub enum Error {
    /// The pty pair could not be allocated.
    AllocationFailed(i32),
    /// The subordinate device node could not be resolved or opened.
    OpenFailed(i32),
    /// A terminal-control ioctl failed.
    IoctlFailed(IoctlOp, i32),
    /// The child process could not be created; this includes a failure of the
    /// session-setup step reported back through the spawn-failure channel.
    SpawnFailed(i32),
    /// A read, write or flush on the pty failed; never a would-block
    /// condition, which the non-blocking retry discipline absorbs.
    IoError(i32),
    /// `unsplit` was called on halves of two different ptys. Both halves are
    /// returned unchanged, so the caller can retry with matching halves.
    UnsplitMismatch(OwnedReadPty, OwnedWritePty),
}

impl Error {
    /// The raw OS error code this error carries, if it wraps one.
    pub fn code(&self) -> (r: Option<i32>)
        ensures
            match *self {
                Error::AllocationFailed(c) => r == Some(c),
                Error::OpenFailed(c) => r == Some(c),
                Error::IoctlFailed(_, c) => r == Some(c),
                Error::SpawnFailed(c) => r == Some(c),
                Error::IoError(c) => r == Some(c),
                Error::UnsplitMismatch(..) => r is None,
            },
    {
        match self {
            Error::AllocationFailed(c) => Some(*c),
            Error::OpenFailed(c) => Some(*c),
            Error::IoctlFailed(_, c) => Some(*c),
            Error::SpawnFailed(c) => Some(*c),
            Error::IoError(c) => Some(*c),
            Error::UnsplitMismatch(..) => None,
        }
    }
}

} // verus!
