//! The decision discipline of the readiness-driven retry loops.
//!
//! A non-blocking read or write on the master descriptor has three possible
//! outcomes: it transferred bytes, it would block, or it failed. A
//! readiness-driven loop reacts to exactly one attempt at a time: it delivers
//! transferred bytes, awaits readiness again on a would-block outcome (a
//! readiness notification is only advisory), and surfaces any other failure
//! terminally. The functions here fix that reaction; the scheduler-specific
//! loop that awaits readiness merely replays their answers.

use vstd::prelude::*;

use crate::pty::PtyModel;

verus! {

/// The outcome of one read attempt on a non-blocking descriptor.
pub enum ReadAttempt {
    /// Bytes were transferred; an empty vector means end of stream.
    Data(Vec<u8>),
    /// The descriptor was not ready after all; carries the raw OS code of the
    /// would-block condition.
    WouldBlock(i32),
    /// The read failed with the given raw OS error code.
    Failed(i32),
}

/// The outcome of one write attempt on a non-blocking descriptor.
pub enum WriteAttempt {
    /// The kernel accepted this many bytes.
    Wrote(usize),
    /// The descriptor was not ready after all; carries the raw OS code of the
    /// would-block condition.
    WouldBlock(i32),
    /// The write failed with the given raw OS error code.
    Failed(i32),
}

/// What a readiness-driven read loop does after one attempt.
pub enum ReadStep {
    /// Return the transferred bytes to the caller.
    Deliver(Vec<u8>),
    /// Await read readiness again and retry.
    AwaitReadable,
    /// Propagate the failure terminally, with its raw OS error code.
    Fail(i32),
}

/// What a readiness-driven write loop does after one attempt.
pub enum WriteStep {
    /// Report to the caller how many bytes were accepted.
    Complete(usize),
    /// Await write readiness again and retry.
    AwaitWritable,
    /// Propagate the failure terminally, with its raw OS error code.
    Fail(i32),
}

/// The reaction of the read loop to one attempt.
pub open spec fn read_step_of(attempt: ReadAttempt) -> ReadStep {
    match attempt {
        ReadAttempt::Data(bytes) => ReadStep::Deliver(bytes),
        ReadAttempt::WouldBlock(_) => ReadStep::AwaitReadable,
        ReadAttempt::Failed(code) => ReadStep::Fail(code),
    }
}

/// The reaction of the write loop to one attempt.
pub open spec fn write_step_of(attempt: WriteAttempt) -> WriteStep {
    match attempt {
        WriteAttempt::Wrote(count) => WriteStep::Complete(count),
        WriteAttempt::WouldBlock(_) => WriteStep::AwaitWritable,
        WriteAttempt::Failed(code) => WriteStep::Fail(code),
    }
}

/// Decide what a readiness-driven read loop does after one attempt.
pub fn read_loop_step(attempt: ReadAttempt) -> (step: ReadStep)
    ensures
        step == read_step_of(attempt),
{
    match attempt {
        ReadAttempt::Data(bytes) => ReadStep::Deliver(bytes),
        ReadAttempt::WouldBlock(_) => ReadStep::AwaitReadable,
        ReadAttempt::Failed(code) => ReadStep::Fail(code),
    }
}

/// Decide what a readiness-driven write loop does after one attempt.
pub fn write_loop_step(attempt: WriteAttempt) -> (step: WriteStep)
    ensures
        step == write_step_of(attempt),
{
    match attempt {
        WriteAttempt::Wrote(count) => WriteStep::Complete(count),
        WriteAttempt::WouldBlock(_) => WriteStep::AwaitWritable,
        WriteAttempt::Failed(code) => WriteStep::Fail(code),
    }
}

/// Law: the retry discipline fully absorbs would-block conditions. A
/// would-block attempt always leads back to awaiting readiness, and a
/// terminal failure is surfaced only for an attempt that actually failed,
/// with its code unchanged — so no caller ever observes a would-block error.
pub proof fn lemma_would_block_absorbed(read: ReadAttempt, write: WriteAttempt)
    ensures
        read is WouldBlock ==> read_step_of(read) is AwaitReadable,
        write is WouldBlock ==> write_step_of(write) is AwaitWritable,
        forall|code: i32| #![auto]
            read_step_of(read) == ReadStep::Fail(code) ==> read == ReadAttempt::Failed(code),
        forall|code: i32| #![auto]
            write_step_of(write) == WriteStep::Fail(code) ==> write == WriteAttempt::Failed(code),
{
}

/// Law: no caller of the retry discipline ever sees a would-block code. For
/// attempts classified against a device's recorded would-block codes — which
/// is what `Pty::try_read` and `Pty::try_write` promise of every attempt they
/// return — a surfaced terminal failure never carries one of those codes.
pub proof fn lemma_no_would_block_surfaced(device: PtyModel, read: ReadAttempt, write: WriteAttempt)
    requires
        read matches ReadAttempt::Failed(code) ==> !device.is_would_block(code),
        write matches WriteAttempt::Failed(code) ==> !device.is_would_block(code),
    ensures
        forall|code: i32| #![auto]
            read_step_of(read) == ReadStep::Fail(code) ==> !device.is_would_block(code),
        forall|code: i32| #![auto]
            write_step_of(write) == WriteStep::Fail(code) ==> !device.is_would_block(code),
{
}

} // verus!
