//! Pseudoterminal allocation and management: open a pty pair, hand the
//! subordinate end to a child process as its controlling terminal, and drive
//! the master end programmatically, either blocking or through a
//! readiness-driven non-blocking adapter.

mod command;
mod error;
mod flags;
mod hygiene;
mod poll;
mod pty;
mod sys;
mod types;

pub use command::{Command, CommandModel, EnvOp, EnvOpModel, SpawnPrep};
pub use error::{Error, IoctlOp};
pub use flags::{add_flag, lemma_with_flag_adds, lemma_with_flag_idempotent};
pub use hygiene::{
    apply_event, apply_events, cycle_fds_fresh, lemma_apply_events_append,
    lemma_repeated_cycles_restore_fds, lemma_spawn_cycle_restores_fds, repeated_cycle_events,
    spawn_cycle_events, CycleFds, FdEvent,
};
pub use poll::{
    lemma_no_would_block_surfaced, lemma_would_block_absorbed, read_loop_step, write_loop_step,
    ReadAttempt, ReadStep, WriteAttempt, WriteStep,
};
pub use pty::{open, OwnedReadPty, OwnedWritePty, Pts, Pty, PtyModel, ReadPty, WritePty};
pub use types::Size;
