//! The task orchestrator: one barrier and one permit pool, driven
//! through the single scheduling primitive every task path must use.
//!
//! A phase runs as: open the fence, schedule the root tasks, close the
//! fence, wait for the wake. Every task, root or child, is registered
//! before it is handed to the executor; a running task that spawns
//! children registers them before its own completion. The fence keeps
//! the counter positive while roots are still being scheduled, so the
//! wake cannot fire early; this holds for any number of phases, each on
//! a fresh orchestrator.

use vstd::prelude::*;

use crate::PERMIT_CAPACITY;
use crate::barrier::Barrier;
use crate::permits::{Acquire, PermitPool};

verus! {

/// The shared scheduling state of one crawl phase.
pub struct Orchestrator {
    pub barrier: Barrier,
    pub permits: PermitPool,
}

impl Orchestrator {
    /// Both parts are in their invariant.
    pub open spec fn wf(self) -> bool {
        self.barrier.inv() && self.permits.inv()
    }

    /// A fresh phase: no work, wake not fired, all permits free.
    pub fn new() -> (r: Orchestrator)
        ensures
            r.wf(),
            r.barrier.counter == 0,
            !r.barrier.woken,
            r.permits.capacity == PERMIT_CAPACITY,
            r.permits.holders() == 0,
            !r.permits.closed,
    {
        Orchestrator { barrier: Barrier::new(), permits: PermitPool::new(PERMIT_CAPACITY) }
    }

    /// Open the phase fence: one extra unit of work standing for "the
    /// coordinator is still scheduling roots", so the counter stays
    /// positive until the fence closes.
    pub fn open_fence(&mut self)
        requires
            old(self).wf(),
            !old(self).barrier.woken,
            old(self).barrier.counter < u64::MAX,
        ensures
            final(self).wf(),
            final(self).barrier.counter == old(self).barrier.counter + 1,
            !final(self).barrier.woken,
            final(self).permits == old(self).permits,
    {
        self.barrier.register();
    }

    /// Register one root task, before any asynchronous handoff.
    pub fn schedule(&mut self)
        requires
            old(self).wf(),
            !old(self).barrier.woken,
            old(self).barrier.counter < u64::MAX,
        ensures
            final(self).wf(),
            final(self).barrier.counter == old(self).barrier.counter + 1,
            !final(self).barrier.woken,
            final(self).permits == old(self).permits,
    {
        self.barrier.register();
    }

    /// Close the phase fence: the fence unit completes like a task, and
    /// wakes the coordinator if every task already finished.
    pub fn close_fence(&mut self) -> (wake: bool)
        requires
            old(self).wf(),
            old(self).barrier.counter >= 1,
        ensures
            final(self).wf(),
            final(self).barrier.counter == old(self).barrier.counter - 1,
            wake == (final(self).barrier.counter == 0),
            final(self).barrier.woken == wake,
            final(self).permits == old(self).permits,
    {
        self.barrier.complete()
    }

    /// A registered task asks for its concurrency permit before its
    /// outbound request. `PoolClosed` after shutdown is an invariant
    /// violation the shell must treat as fatal.
    pub fn task_start(&mut self) -> (r: Acquire)
        requires
            old(self).wf(),
        ensures
            final(self).wf(),
            final(self).barrier == old(self).barrier,
            final(self).permits.holders() <= final(self).permits.capacity,
            old(self).permits.closed ==> r == Acquire::PoolClosed,
            !old(self).permits.closed && old(self).permits.free == 0 ==> r == Acquire::MustWait,
            !old(self).permits.closed && old(self).permits.free >= 1 ==> r == Acquire::Granted
                && final(self).permits.holders() == old(self).permits.holders() + 1,
    {
        self.permits.try_acquire()
    }

    /// A task finishes its own unit of work, having already registered
    /// `children` child tasks: the children's increments are applied
    /// before the parent's decrement, then the permit returns. Exactly
    /// the completion that drains the counter reports the wake.
    pub fn task_finish(&mut self, children: u64) -> (wake: bool)
        requires
            old(self).wf(),
            old(self).barrier.counter >= 1,
            old(self).barrier.counter + children <= u64::MAX,
            old(self).permits.holders() >= 1,
        ensures
            final(self).wf(),
            final(self).barrier.counter == old(self).barrier.counter + children - 1,
            wake == (final(self).barrier.counter == 0),
            children >= 1 ==> !wake,
            final(self).permits.holders() == old(self).permits.holders() - 1,
            final(self).permits.capacity == old(self).permits.capacity,
            final(self).permits.closed == old(self).permits.closed,
    {
        let mut k: u64 = 0;
        while k < children
            invariant
                0 <= k <= children,
                self.wf(),
                self.barrier.counter == old(self).barrier.counter + k,
                old(self).barrier.counter + children <= u64::MAX,
                old(self).barrier.counter >= 1,
                !self.barrier.woken,
                self.permits == old(self).permits,
            decreases children - k,
        {
            self.barrier.register_child();
            k = k + 1;
        }
        let wake = self.barrier.complete();
        self.permits.release();
        wake
    }

    /// Shut the permit pool down, after the coordinator has observed
    /// the wake of the final phase.
    pub fn shutdown(&mut self)
        requires
            old(self).wf(),
        ensures
            final(self).wf(),
            final(self).permits.closed,
            final(self).barrier == old(self).barrier,
    {
        self.permits.close();
    }
}

} // verus!
