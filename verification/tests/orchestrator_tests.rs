//! The barrier and permit pool, driven through concrete schedules.

use canvas_sync::barrier::Barrier;
use canvas_sync::orchestrator::Orchestrator;
use canvas_sync::permits::{Acquire, PermitPool};
use canvas_sync::PERMIT_CAPACITY;

/// A nested fan-out: two roots, the first spawning two children, one of
/// which spawns one grandchild. The wake fires exactly once, at the
/// final completion, and the counter reads zero only then.
#[test]
fn barrier_nested_fanout_wakes_once() {
    let mut b = Barrier::new();
    assert_eq!(b.counter, 0);
    assert!(!b.woken);

    // Coordinator: fence, then two roots.
    b.register(); // fence
    b.register(); // root A
    b.register(); // root B
    assert_eq!(b.counter, 3);

    // Fence closes after scheduling; plenty of work remains.
    assert!(!b.complete());
    assert_eq!(b.counter, 2);

    // Root A spawns two children before its own decrement.
    b.register_child();
    b.register_child();
    assert!(!b.complete());
    assert_eq!(b.counter, 3);

    // Child 1 spawns a grandchild before completing.
    b.register_child();
    assert!(!b.complete());

    // Remaining completions in some order; only the last one wakes.
    assert!(!b.complete()); // child 2
    assert!(!b.complete()); // grandchild
    assert_eq!(b.counter, 1);
    assert!(!b.woken);
    let wake = b.complete(); // root B, the last task
    assert!(wake);
    assert!(b.woken);
    assert_eq!(b.counter, 0);
}

/// With the fence held, the counter never reads zero while roots are
/// still being scheduled, even if an early root completes at once.
#[test]
fn barrier_fence_prevents_early_wake() {
    let mut b = Barrier::new();
    b.register(); // fence
    b.register(); // root A
    assert!(!b.complete()); // root A completes immediately
    assert_eq!(b.counter, 1); // fence still holds the phase open
    assert!(!b.woken);
    b.register(); // root B
    assert!(!b.complete()); // root B completes
    let wake = b.complete(); // fence closes: everything done
    assert!(wake);
    assert_eq!(b.counter, 0);
}

/// At most eight permits are ever held, whatever the demand.
#[test]
fn permits_capacity_is_eight() {
    let mut p = PermitPool::new(PERMIT_CAPACITY);
    let mut granted = 0u64;
    for _ in 0..20 {
        match p.try_acquire() {
            Acquire::Granted => granted += 1,
            Acquire::MustWait => {}
            Acquire::PoolClosed => unreachable!(),
        }
    }
    assert_eq!(granted, 8);
    assert_eq!(p.free, 0);

    // A release frees exactly one slot.
    p.release();
    assert!(matches!(p.try_acquire(), Acquire::Granted));
    assert!(matches!(p.try_acquire(), Acquire::MustWait));
}

/// A closed pool grants nothing: a late acquire is the fatal case.
#[test]
fn permits_closed_pool_refuses() {
    let mut p = PermitPool::new(PERMIT_CAPACITY);
    p.close();
    assert!(matches!(p.try_acquire(), Acquire::PoolClosed));
}

/// Many tasks with nested fan-out completed in a scrambled order: the
/// counter never reads zero before the end, and the wake fires exactly
/// once, at the final completion.
#[test]
fn barrier_scrambled_schedules_wake_once() {
    for seed in 1u64..30 {
        let mut rng = seed;
        let mut step = move || {
            rng = rng.wrapping_mul(6364136223846793005).wrapping_add(1442695040888963407);
            rng >> 33
        };

        let mut b = Barrier::new();
        b.register(); // fence
        let mut pending: u64 = 1;
        let mut spawned: u64 = 1;
        let mut wakes: u64 = 0;

        while pending > 0 {
            // A running task may spawn children before completing.
            if spawned < 40 && step() % 3 == 0 {
                let children = step() % 4;
                for _ in 0..children {
                    b.register_child();
                    pending += 1;
                    spawned += 1;
                }
            }
            if b.complete() {
                wakes += 1;
            }
            pending -= 1;
            assert_eq!(b.counter, pending);
            // Zero is seen only once the wake has fired.
            assert_eq!(b.counter == 0, b.woken);
        }
        assert_eq!(wakes, 1);
        assert!(b.woken);
    }
}

/// A whole phase through the orchestrator: fence, roots, children,
/// permits around each unit of work, one wake at the end.
#[test]
fn orchestrator_phase_runs_to_wake() {
    let mut o = Orchestrator::new();
    o.open_fence();
    o.schedule(); // root A
    o.schedule(); // root B
    assert!(!o.close_fence());
    assert_eq!(o.barrier.counter, 2);

    // Root A runs: permit, spawns one child, finishes.
    assert!(matches!(o.task_start(), Acquire::Granted));
    assert!(!o.task_finish(1));
    assert_eq!(o.barrier.counter, 2);

    // Root B runs with no children.
    assert!(matches!(o.task_start(), Acquire::Granted));
    assert!(!o.task_finish(0));

    // The child runs; its completion drains the phase.
    assert!(matches!(o.task_start(), Acquire::Granted));
    let wake = o.task_finish(0);
    assert!(wake);
    assert_eq!(o.barrier.counter, 0);
    assert_eq!(o.permits.free, o.permits.capacity);

    // Shutdown; stragglers would now hit the fatal case.
    o.shutdown();
    assert!(matches!(o.task_start(), Acquire::PoolClosed));
}
