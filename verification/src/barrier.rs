//! The completion barrier of the task orchestrator.
//!
//! One coordinator blocks until a dynamically growing set of tasks has
//! drained. The barrier holds the count of in-flight tasks and a flag
//! recording whether the one-time wake signal has fired. The rules every
//! scheduling path must follow:
//!
//! - a task is registered (counter incremented) synchronously, before any
//!   asynchronous handoff;
//! - a running task registers its children before its own decrement, so
//!   the counter never transiently reads zero while work exists;
//! - the task whose decrement reaches zero issues the wake signal, once.
//!
//! [`BarrierOp`] and the trace functions replay any interleaving of these
//! operations; the lemmas at the end state the barrier laws for every
//! such interleaving.

use vstd::prelude::*;

verus! {

/// Count of in-flight tasks, plus the one-shot wake flag.
#[derive(Clone, Copy, Debug, PartialEq, Eq, Structural)]
pub struct Barrier {
    /// Number of tasks registered and not yet completed.
    pub counter: u64,
    /// Whether the wake signal has fired.
    pub woken: bool,
}

impl Barrier {
    /// The wake signal fires only when no work is left.
    pub open spec fn inv(self) -> bool {
        self.woken ==> self.counter == 0
    }

    /// Work is outstanding, or the phase has already completed: once any
    /// task is registered, a zero counter is seen only after the wake.
    pub open spec fn settled_or_busy(self) -> bool {
        self.counter >= 1 || self.woken
    }

    /// A fresh barrier: no work, wake not fired.
    pub fn new() -> (b: Barrier)
        ensures
            b.counter == 0,
            !b.woken,
            b.inv(),
    {
        Barrier { counter: 0, woken: false }
    }

    /// Register one unit of work in the caller's context, before the task
    /// is handed to the executor. Refused once the phase has completed.
    pub fn register(&mut self)
        requires
            old(self).counter < u64::MAX,
            !old(self).woken,
            old(self).inv(),
        ensures
            final(self).counter == old(self).counter + 1,
            !final(self).woken,
            final(self).inv(),
    {
        self.counter = self.counter + 1;
    }

    /// A running task registers one child. The caller is itself still
    /// counted, so the counter is at least one and the wake cannot have
    /// fired.
    pub fn register_child(&mut self)
        requires
            1 <= old(self).counter < u64::MAX,
            old(self).inv(),
        ensures
            final(self).counter == old(self).counter + 1,
            !final(self).woken,
            final(self).inv(),
    {
        self.counter = self.counter + 1;
    }

    /// A task completed (with or without success): decrement, and report
    /// whether this completion must issue the wake signal. Exactly the
    /// completion that reaches zero reports `true`.
    pub fn complete(&mut self) -> (wake: bool)
        requires
            old(self).counter >= 1,
            old(self).inv(),
        ensures
            final(self).counter == old(self).counter - 1,
            wake == (final(self).counter == 0),
            final(self).woken == wake,
            final(self).inv(),
            old(self).settled_or_busy() ==> final(self).settled_or_busy(),
    {
        self.counter = self.counter - 1;
        if self.counter == 0 {
            self.woken = true;
            true
        } else {
            false
        }
    }
}

/// One step some scheduling path may take against the barrier.
#[derive(Clone, Copy, Debug, PartialEq, Eq, Structural)]
pub enum BarrierOp {
    /// The coordinator registers a root task (or the phase fence).
    Register,
    /// A running task registers a child, before its own decrement.
    RegisterChild,
    /// A task completes and decrements.
    Complete,
}

/// Whether `op` respects the scheduling rules in state `b`.
pub open spec fn op_enabled(b: Barrier, op: BarrierOp) -> bool {
    match op {
        BarrierOp::Register => b.counter < u64::MAX && !b.woken,
        BarrierOp::RegisterChild => 1 <= b.counter < u64::MAX,
        BarrierOp::Complete => b.counter >= 1,
    }
}

/// The state after `op`.
pub open spec fn op_step(b: Barrier, op: BarrierOp) -> Barrier {
    match op {
        BarrierOp::Register => Barrier { counter: (b.counter + 1) as u64, ..b },
        BarrierOp::RegisterChild => Barrier { counter: (b.counter + 1) as u64, ..b },
        BarrierOp::Complete => Barrier {
            counter: (b.counter - 1) as u64,
            woken: b.woken || b.counter == 1,
        },
    }
}

/// Whether `op` fires the wake signal in state `b`.
pub open spec fn op_wakes(b: Barrier, op: BarrierOp) -> bool {
    op is Complete && b.counter == 1
}

/// Every step of the trace respects the scheduling rules.
pub open spec fn trace_ok(b: Barrier, ops: Seq<BarrierOp>) -> bool
    decreases ops.len(),
{
    ops.len() == 0 || (op_enabled(b, ops[0]) && trace_ok(op_step(b, ops[0]), ops.drop_first()))
}

/// The state after the whole trace.
pub open spec fn trace_end(b: Barrier, ops: Seq<BarrierOp>) -> Barrier
    decreases ops.len(),
{
    if ops.len() == 0 {
        b
    } else {
        trace_end(op_step(b, ops[0]), ops.drop_first())
    }
}

/// How many steps of the trace fire the wake signal.
pub open spec fn trace_wakes(b: Barrier, ops: Seq<BarrierOp>) -> nat
    decreases ops.len(),
{
    if ops.len() == 0 {
        0
    } else {
        (if op_wakes(b, ops[0]) { 1nat } else { 0nat }) + trace_wakes(op_step(b, ops[0]), ops.drop_first())
    }
}

/// The barrier state seen after the first `i` steps.
pub open spec fn trace_at(b: Barrier, ops: Seq<BarrierOp>, i: int) -> Barrier {
    trace_end(b, ops.take(i))
}

proof fn lemma_take_unfold(b: Barrier, ops: Seq<BarrierOp>, i: int)
    requires
        1 <= i <= ops.len(),
    ensures
        trace_end(b, ops.take(i)) == trace_end(op_step(b, ops[0]), ops.drop_first().take(i - 1)),
{
    let t = ops.take(i);
    assert(t[0] == ops[0]);
    assert(t.drop_first() =~= ops.drop_first().take(i - 1));
}

/// Along any rule-respecting trace, the barrier invariant holds at every
/// point: whenever the wake signal has fired, the counter reads zero.
/// The counter itself is a machine word kept non-negative by the rules:
/// no step decrements it below zero.
pub proof fn lemma_trace_inv(b: Barrier, ops: Seq<BarrierOp>)
    requires
        b.inv(),
        trace_ok(b, ops),
    ensures
        forall|i: int| 0 <= i <= ops.len() ==> (#[trigger] trace_at(b, ops, i)).inv(),
    decreases ops.len(),
{
    assert(ops.take(0) =~= Seq::<BarrierOp>::empty());
    if ops.len() > 0 {
        let next = op_step(b, ops[0]);
        lemma_trace_inv(next, ops.drop_first());
        assert forall|i: int| 0 <= i <= ops.len() implies (#[trigger] trace_at(b, ops, i)).inv() by {
            if i >= 1 {
                lemma_take_unfold(b, ops, i);
                assert(trace_at(next, ops.drop_first(), i - 1).inv());
            }
        }
    }
}

/// Once work is outstanding, the counter reads zero only after the wake
/// signal has fired: every intermediate state of a rule-respecting trace
/// that starts with at least one registered task either still holds
/// outstanding work or has woken the coordinator.
pub proof fn lemma_zero_only_after_wake(b: Barrier, ops: Seq<BarrierOp>)
    requires
        b.settled_or_busy(),
        trace_ok(b, ops),
    ensures
        forall|i: int|
            0 <= i <= ops.len() ==> (#[trigger] trace_at(b, ops, i)).settled_or_busy(),
    decreases ops.len(),
{
    assert(ops.take(0) =~= Seq::<BarrierOp>::empty());
    if ops.len() > 0 {
        let next = op_step(b, ops[0]);
        lemma_zero_only_after_wake(next, ops.drop_first());
        assert forall|i: int|
            0 <= i <= ops.len() implies (#[trigger] trace_at(b, ops, i)).settled_or_busy() by {
            if i >= 1 {
                lemma_take_unfold(b, ops, i);
                assert(trace_at(next, ops.drop_first(), i - 1).settled_or_busy());
            }
        }
    }
}

/// The wake signal fires exactly once per phase: along any rule-respecting
/// trace the number of firing steps equals the change of the wake flag, so
/// from a fresh barrier it is one exactly when the trace ends woken, and
/// never more.
pub proof fn lemma_wake_fires_once(b: Barrier, ops: Seq<BarrierOp>)
    requires
        b.inv(),
        trace_ok(b, ops),
    ensures
        trace_wakes(b, ops) + (if b.woken { 1int } else { 0int }) == (if trace_end(
            b,
            ops,
        ).woken {
            1int
        } else {
            0int
        }),
    decreases ops.len(),
{
    if ops.len() > 0 {
        lemma_wake_fires_once(op_step(b, ops[0]), ops.drop_first());
    }
}

} // verus!
