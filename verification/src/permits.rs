//! The concurrency permit pool.
//!
//! A fixed-capacity counting gate: before performing an outbound request
//! a task must hold a permit, and it returns the permit when its own unit
//! of work completes. Whatever the recursion depth or fan-out, at most
//! `capacity` tasks hold a permit at once. After the coordinator has
//! observed completion it closes the pool; a late acquire against a
//! closed pool is a scheduler bug, reported as such, never granted.

use vstd::prelude::*;

verus! {

/// A fixed-capacity pool of concurrency permits.
#[derive(Clone, Copy, Debug, PartialEq, Eq, Structural)]
pub struct PermitPool {
    /// Number of permits the pool was created with.
    pub capacity: u64,
    /// Permits currently available.
    pub free: u64,
    /// Whether the pool has been shut down.
    pub closed: bool,
}

/// What an acquire attempt yields.
#[derive(Clone, Copy, Debug, PartialEq, Eq, Structural)]
pub enum Acquire {
    /// A permit was free and is now held by the caller.
    Granted,
    /// All permits are held; the caller must block until one frees.
    MustWait,
    /// The pool is closed: a task arrived after shutdown, which is an
    /// invariant violation, fatal to the process.
    PoolClosed,
}

impl PermitPool {
    /// No more permits are out than the pool was created with.
    pub open spec fn inv(self) -> bool {
        self.free <= self.capacity
    }

    /// Number of permits currently held by tasks.
    pub open spec fn holders(self) -> int {
        self.capacity - self.free
    }

    /// A fresh pool with all `capacity` permits available.
    pub fn new(capacity: u64) -> (p: PermitPool)
        ensures
            p.capacity == capacity,
            p.free == capacity,
            !p.closed,
            p.inv(),
            p.holders() == 0,
    {
        PermitPool { capacity, free: capacity, closed: false }
    }

    /// Attempt to take a permit. Never hands one out beyond capacity and
    /// never grants from a closed pool.
    pub fn try_acquire(&mut self) -> (r: Acquire)
        requires
            old(self).inv(),
        ensures
            final(self).inv(),
            final(self).capacity == old(self).capacity,
            final(self).closed == old(self).closed,
            old(self).closed ==> r == Acquire::PoolClosed && *final(self) == *old(self),
            !old(self).closed && old(self).free == 0 ==> r == Acquire::MustWait && *final(self)
                == *old(self),
            !old(self).closed && old(self).free >= 1 ==> r == Acquire::Granted && final(self).free
                == old(self).free - 1,
            final(self).holders() <= final(self).capacity,
    {
        if self.closed {
            Acquire::PoolClosed
        } else if self.free == 0 {
            Acquire::MustWait
        } else {
            self.free = self.free - 1;
            Acquire::Granted
        }
    }

    /// Return a held permit. The caller holds one, so `holders() >= 1`.
    pub fn release(&mut self)
        requires
            old(self).inv(),
            old(self).holders() >= 1,
        ensures
            final(self).inv(),
            final(self).capacity == old(self).capacity,
            final(self).closed == old(self).closed,
            final(self).free == old(self).free + 1,
            final(self).holders() == old(self).holders() - 1,
    {
        self.free = self.free + 1;
    }

    /// Shut the pool down, once the coordinator has observed completion.
    pub fn close(&mut self)
        requires
            old(self).inv(),
        ensures
            final(self).inv(),
            final(self).capacity == old(self).capacity,
            final(self).free == old(self).free,
            final(self).closed,
    {
        self.closed = true;
    }
}

/// One step some task may take against the pool.
#[derive(Clone, Copy, Debug, PartialEq, Eq, Structural)]
pub enum PermitOp {
    TryAcquire,
    Release,
    Close,
}

/// Whether `op` respects the pool discipline in state `p`: a task only
/// releases a permit it holds.
pub open spec fn permit_op_enabled(p: PermitPool, op: PermitOp) -> bool {
    match op {
        PermitOp::TryAcquire => true,
        PermitOp::Release => p.holders() >= 1,
        PermitOp::Close => true,
    }
}

/// The state after `op`.
pub open spec fn permit_op_step(p: PermitPool, op: PermitOp) -> PermitPool {
    match op {
        PermitOp::TryAcquire => if !p.closed && p.free >= 1 {
            PermitPool { free: (p.free - 1) as u64, ..p }
        } else {
            p
        },
        PermitOp::Release => PermitPool { free: (p.free + 1) as u64, ..p },
        PermitOp::Close => PermitPool { closed: true, ..p },
    }
}

/// Every step of the trace respects the pool discipline.
pub open spec fn permit_trace_ok(p: PermitPool, ops: Seq<PermitOp>) -> bool
    decreases ops.len(),
{
    ops.len() == 0 || (permit_op_enabled(p, ops[0]) && permit_trace_ok(
        permit_op_step(p, ops[0]),
        ops.drop_first(),
    ))
}

/// The state after the whole trace.
pub open spec fn permit_trace_end(p: PermitPool, ops: Seq<PermitOp>) -> PermitPool
    decreases ops.len(),
{
    if ops.len() == 0 {
        p
    } else {
        permit_trace_end(permit_op_step(p, ops[0]), ops.drop_first())
    }
}

/// The pool state seen after the first `i` steps.
pub open spec fn permit_trace_at(p: PermitPool, ops: Seq<PermitOp>, i: int) -> PermitPool {
    permit_trace_end(p, ops.take(i))
}

proof fn lemma_permit_take_unfold(p: PermitPool, ops: Seq<PermitOp>, i: int)
    requires
        1 <= i <= ops.len(),
    ensures
        permit_trace_end(p, ops.take(i)) == permit_trace_end(
            permit_op_step(p, ops[0]),
            ops.drop_first().take(i - 1),
        ),
{
    let t = ops.take(i);
    assert(t[0] == ops[0]);
    assert(t.drop_first() =~= ops.drop_first().take(i - 1));
}

/// Bounded concurrency: for any workload — any rule-respecting trace of
/// acquires, releases and the shutdown — never are more than `capacity`
/// permits held at once.
pub proof fn lemma_holders_bounded(p: PermitPool, ops: Seq<PermitOp>)
    requires
        p.inv(),
        permit_trace_ok(p, ops),
    ensures
        forall|i: int|
            0 <= i <= ops.len() ==> {
                let s = #[trigger] permit_trace_at(p, ops, i);
                s.inv() && 0 <= s.holders() <= p.capacity
            },
    decreases ops.len(),
{
    assert(ops.take(0) =~= Seq::<PermitOp>::empty());
    if ops.len() > 0 {
        let next = permit_op_step(p, ops[0]);
        lemma_holders_bounded(next, ops.drop_first());
        assert forall|i: int|
            0 <= i <= ops.len() implies {
            let s = #[trigger] permit_trace_at(p, ops, i);
            s.inv() && 0 <= s.holders() <= p.capacity
        } by {
            if i >= 1 {
                lemma_permit_take_unfold(p, ops, i);
                let s = permit_trace_at(next, ops.drop_first(), i - 1);
                assert(s.inv() && 0 <= s.holders() <= next.capacity);
            }
        }
    }
}

} // verus!
