//! Descriptor hygiene: the bookkeeping of one spawn cycle.
//!
//! The parent's set of open descriptors is modelled as a set of descriptor
//! numbers, and every step of an open → spawn → wait → drop cycle as an event
//! that acquires or releases one descriptor. Opening the pair acquires the
//! master and the subordinate; preparing a spawn acquires the stdio
//! duplicates and the session handle; the spawn itself moves the stdio
//! duplicates into the child, releasing them in the parent; the session
//! handle goes when the spawn machinery is dropped; and dropping the pair
//! releases the master and the subordinate. The law proved here: a full
//! cycle, and any run of full cycles, returns the parent's descriptor set to
//! exactly its initial value — no descriptor leaks and none is lost.

use vstd::prelude::*;

verus! {

/// One change of the parent's descriptor set.
pub enum FdEvent {
    /// The parent gains a descriptor: an open or a duplication.
    Acquire(u64),
    /// The parent loses a descriptor: a close, or the move of a prepared
    /// duplicate into the spawned child's standard streams.
    Release(u64),
}

/// The descriptor set after one event.
pub open spec fn apply_event(fds: Set<u64>, event: FdEvent) -> Set<u64> {
    match event {
        FdEvent::Acquire(fd) => fds.insert(fd),
        FdEvent::Release(fd) => fds.remove(fd),
    }
}

/// The descriptor set after a sequence of events.
pub open spec fn apply_events(fds: Set<u64>, events: Seq<FdEvent>) -> Set<u64>
    decreases events.len(),
{
    if events.len() == 0 {
        fds
    } else {
        apply_events(apply_event(fds, events[0]), events.skip(1))
    }
}

/// The descriptors that one spawn cycle touches: the master and subordinate
/// of the freshly opened pair, the three stdio duplicates prepared for the
/// child, and the session handle for the pre-exec step.
pub struct CycleFds {
    pub master: u64,
    pub subordinate: u64,
    pub stdin: u64,
    pub stdout: u64,
    pub stderr: u64,
    pub session: u64,
}

/// The events of one full open → spawn → wait → drop cycle, in order.
/// Waiting for the child touches no descriptor, so it contributes no event.
pub open spec fn spawn_cycle_events(c: CycleFds) -> Seq<FdEvent> {
    seq![
        FdEvent::Acquire(c.master),
        FdEvent::Acquire(c.subordinate),
        FdEvent::Acquire(c.stdin),
        FdEvent::Acquire(c.stdout),
        FdEvent::Acquire(c.stderr),
        FdEvent::Acquire(c.session),
        FdEvent::Release(c.stdin),
        FdEvent::Release(c.stdout),
        FdEvent::Release(c.stderr),
        FdEvent::Release(c.session),
        FdEvent::Release(c.subordinate),
        FdEvent::Release(c.master),
    ]
}

/// The cycle's descriptors are fresh — the kernel hands out numbers that are
/// not currently open — and pairwise distinct.
pub open spec fn cycle_fds_fresh(fds: Set<u64>, c: CycleFds) -> bool {
    &&& !fds.contains(c.master)
    &&& !fds.contains(c.subordinate)
    &&& !fds.contains(c.stdin)
    &&& !fds.contains(c.stdout)
    &&& !fds.contains(c.stderr)
    &&& !fds.contains(c.session)
    &&& c.master != c.subordinate && c.master != c.stdin && c.master != c.stdout && c.master
        != c.stderr && c.master != c.session
    &&& c.subordinate != c.stdin && c.subordinate != c.stdout && c.subordinate != c.stderr
        && c.subordinate != c.session
    &&& c.stdin != c.stdout && c.stdin != c.stderr && c.stdin != c.session
    &&& c.stdout != c.stderr && c.stdout != c.session
    &&& c.stderr != c.session
}

/// Law: one full spawn cycle returns the parent's descriptor set to exactly
/// its initial value — every descriptor the cycle acquired is released or
/// moved into the child, and no prior descriptor is touched.
pub proof fn lemma_spawn_cycle_restores_fds(fds: Set<u64>, c: CycleFds)
    requires
        cycle_fds_fresh(fds, c),
    ensures
        apply_events(fds, spawn_cycle_events(c)) == fds,
{
    reveal_with_fuel(apply_events, 13);
    assert(apply_events(fds, spawn_cycle_events(c)) =~= fds);
}

/// The events of a run of consecutive spawn cycles.
pub open spec fn repeated_cycle_events(cycles: Seq<CycleFds>) -> Seq<FdEvent>
    decreases cycles.len(),
{
    if cycles.len() == 0 {
        Seq::empty()
    } else {
        spawn_cycle_events(cycles[0]) + repeated_cycle_events(cycles.skip(1))
    }
}

/// Applying concatenated event sequences is applying them one after the
/// other.
pub proof fn lemma_apply_events_append(fds: Set<u64>, first: Seq<FdEvent>, second: Seq<FdEvent>)
    ensures
        apply_events(fds, first + second) == apply_events(apply_events(fds, first), second),
    decreases first.len(),
{
    if first.len() == 0 {
        assert(first + second =~= second);
    } else {
        assert((first + second).skip(1) =~= first.skip(1) + second);
        lemma_apply_events_append(apply_event(fds, first[0]), first.skip(1), second);
    }
}

/// Law: any number of consecutive spawn cycles, each using fresh
/// descriptors, returns the parent's descriptor set to exactly its initial
/// value.
pub proof fn lemma_repeated_cycles_restore_fds(fds: Set<u64>, cycles: Seq<CycleFds>)
    requires
        forall|i: int| 0 <= i < cycles.len() ==> cycle_fds_fresh(fds, #[trigger] cycles[i]),
    ensures
        apply_events(fds, repeated_cycle_events(cycles)) == fds,
    decreases cycles.len(),
{
    if cycles.len() > 0 {
        lemma_apply_events_append(fds, spawn_cycle_events(cycles[0]), repeated_cycle_events(
            cycles.skip(1),
        ));
        lemma_spawn_cycle_restores_fds(fds, cycles[0]);
        assert(forall|i: int|
            0 <= i < cycles.skip(1).len() ==> cycle_fds_fresh(fds, #[trigger] cycles.skip(1)[i]));
        lemma_repeated_cycles_restore_fds(fds, cycles.skip(1));
    }
}

} // verus!
