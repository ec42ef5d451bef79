//! The process singleton guard.
//!
//! The platform provides a named, system-wide lock; the process acquires it
//! at start and holds it until exit. This module models that lock and
//! states the launch rule: a process that fails to acquire it terminates
//! before any UI exists. The model shows that of any number of simultaneous
//! launch attempts, exactly one acquires the lock and proceeds.

use vstd::prelude::*;

verus! {

/// A model of the system-wide named lock: the id of the process holding
/// it, if any. The lock is released only when the holding process exits.
#[derive(Clone, Copy, PartialEq, Eq, Debug)]
pub struct InstanceLock {
    pub holder: Option<u64>,
}

impl InstanceLock {
    /// A lock nobody holds.
    pub fn new() -> (l: Self)
        ensures
            l.holder is None,
    {
        InstanceLock { holder: None }
    }

    /// One instantaneous test-and-set: acquisition succeeds exactly when
    /// the lock is free, and a failed attempt changes nothing. There is no
    /// retry and no waiting.
    pub fn try_acquire(&mut self, process: u64) -> (ok: bool)
        ensures
            ok == (old(self).holder is None),
            ok ==> final(self).holder == Some(process),
            !ok ==> *final(self) == *old(self),
    {
        match self.holder {
            Some(_) => false,
            None => {
                self.holder = Some(process);
                true
            },
        }
    }
}

/// What a starting process does with the outcome of the acquisition
/// attempt: proceed to initialize the UI, or terminate at once, before any
/// window, tray icon, or dialog exists.
#[derive(Clone, Copy, PartialEq, Eq, Debug)]
pub enum LaunchDecision {
    Proceed,
    AbortAlreadyRunning,
}

/// The launch rule: a process initializes its UI exactly when it acquired
/// the instance lock.
pub fn launch_decision(acquired: bool) -> (d: LaunchDecision)
    ensures
        (d is Proceed) == acquired,
{
    if acquired {
        LaunchDecision::Proceed
    } else {
        LaunchDecision::AbortAlreadyRunning
    }
}

/// The lock after one acquisition attempt by the given process.
pub open spec fn spec_acquire(l: InstanceLock, process: u64) -> InstanceLock {
    if l.holder is None {
        InstanceLock { holder: Some(process) }
    } else {
        l
    }
}

/// The lock after a series of acquisition attempts, front to back.
pub open spec fn spec_acquire_all(l: InstanceLock, processes: Seq<u64>) -> InstanceLock
    decreases processes.len(),
{
    if processes.len() == 0 {
        l
    } else {
        spec_acquire_all(spec_acquire(l, processes.first()), processes.drop_first())
    }
}

/// How many of a series of acquisition attempts succeed.
pub open spec fn spec_successes(l: InstanceLock, processes: Seq<u64>) -> int
    decreases processes.len(),
{
    if processes.len() == 0 {
        0int
    } else {
        (if l.holder is None {
            1int
        } else {
            0int
        }) + spec_successes(spec_acquire(l, processes.first()), processes.drop_first())
    }
}

/// No attempt against a held lock succeeds, and the holder never changes.
pub proof fn lemma_held_lock_refuses_all(l: InstanceLock, processes: Seq<u64>)
    requires
        l.holder is Some,
    ensures
        spec_successes(l, processes) == 0,
        spec_acquire_all(l, processes) == l,
    decreases processes.len(),
{
    if processes.len() > 0 {
        lemma_held_lock_refuses_all(l, processes.drop_first());
    }
}

/// Law: the singleton guarantee. Of any number of launch attempts against
/// a lock nobody holds, exactly one — the first — acquires it and proceeds
/// to initialize UI; every other attempt fails and terminates with no
/// window and no tray icon.
pub proof fn lemma_exactly_one_acquires(l: InstanceLock, processes: Seq<u64>)
    requires
        l.holder is None,
        processes.len() >= 1,
    ensures
        spec_successes(l, processes) == 1,
        spec_acquire_all(l, processes).holder == Some(processes.first()),
{
    lemma_held_lock_refuses_all(spec_acquire(l, processes.first()), processes.drop_first());
}

} // verus!
