//! What the layers above the scheduler call: operations that change which
//! threads want the CPU and then ask for the scheduler to run.
//!
//! On one core the request goes to the deferred trap. On two cores it goes
//! to the request line of a core. A call that changes nothing asks for
//! nothing.

use vstd::prelude::*;
use crate::arch::{frame_word, initial_sp, schedule, word_at, Scb, MIN_STACK_SIZE};
use crate::runqueue::{RunqueueId, ThreadId};
use crate::sched::{
    after_create, after_leave, after_set_runnable, after_yield, current_running, is_blocked,
    Scheduler,
};
use crate::smp::{signal_target, Chip, CoreId, RequestLines};
use crate::stack::STACK_PAINT;
use crate::threads::{none_free_below, BlockReason, ThreadState};

verus! {

/// The request of the deferred trap after an operation that found `scb`:
/// raised if the operation changed the scheduler, else as it was.
pub open spec fn requested(scb: Scb, changed: bool) -> Scb {
    if changed {
        Scb { pendsv: true }
    } else {
        scb
    }
}

/// The request lines after an operation that found `lines` and asks core
/// `core` to run the scheduler if it changed anything.
pub open spec fn requested_on(lines: RequestLines, core: CoreId, changed: bool) -> RequestLines {
    if changed {
        lines.raised(signal_target(lines, core))
    } else {
        lines
    }
}

/// Creates a thread, as `Scheduler::create_thread` does, and requests the
/// deferred trap.
pub fn create_thread(
    sched: &mut Scheduler,
    scb: &mut Scb,
    entry: u32,
    arg: u32,
    stack: &mut Vec<u8>,
    stack_start: u32,
    prio: RunqueueId,
    cleanup: u32,
) -> (id: ThreadId)
    requires
        old(sched).wf(),
        (prio as int) < old(sched)@.queue.len(),
        !none_free_below(old(sched)@.threads, old(sched)@.threads.len() as int),
        old(stack)@.len() >= MIN_STACK_SIZE,
        stack_start + old(stack)@.len() <= u32::MAX,
    ensures
        final(sched).wf(),
        (id as int) < old(sched)@.threads.len(),
        old(sched)@.threads[id as int].state == ThreadState::New,
        none_free_below(old(sched)@.threads, id as int),
        final(sched)@ == after_create(
            old(sched)@,
            id,
            prio,
            initial_sp(stack_start, old(stack)@.len()) as usize,
            stack_start as usize,
            (stack_start + old(stack)@.len()) as usize,
        ),
        final(stack)@.len() == old(stack)@.len(),
        forall|i: int|
            0 <= i < 8 ==> #[trigger] word_at(
                final(stack)@,
                initial_sp(stack_start, old(stack)@.len()) - stack_start + 4 * i,
            ) == frame_word(i, entry, arg, cleanup),
        forall|j: int|
            0 <= j < initial_sp(stack_start, old(stack)@.len()) - stack_start ==> final(stack)@[j]
                == STACK_PAINT,
        forall|j: int|
            initial_sp(stack_start, old(stack)@.len()) - stack_start + 32 <= j < old(stack)@.len()
                ==> final(stack)@[j] == old(stack)@[j],
        *final(scb) == requested(*old(scb), true),
{
    let id = sched.create_thread(entry, arg, stack, stack_start, prio, cleanup);
    schedule(scb);
    id
}

/// Wakes thread `id`, as `Scheduler::set_runnable` does, and requests the
/// deferred trap if the thread was blocked.
pub fn set_runnable(sched: &mut Scheduler, scb: &mut Scb, id: ThreadId) -> (woken: bool)
    requires
        old(sched).wf(),
    ensures
        final(sched).wf(),
        woken <==> ((id as int) < old(sched)@.threads.len() && is_blocked(
            old(sched)@.threads[id as int].state,
        )),
        final(sched)@ == after_set_runnable(old(sched)@, id),
        *final(scb) == requested(*old(scb), woken),
{
    let woken = sched.set_runnable(id);
    if woken {
        schedule(scb);
    }
    woken
}

/// The current thread gives up the CPU, as `Scheduler::yield_now` does, and
/// the deferred trap is requested if the thread was running.
pub fn yield_now(sched: &mut Scheduler, scb: &mut Scb) -> (yielded: bool)
    requires
        old(sched).wf(),
    ensures
        final(sched).wf(),
        yielded <==> current_running(old(sched)@),
        final(sched)@ == after_yield(old(sched)@),
        *final(scb) == requested(*old(scb), yielded),
{
    let yielded = sched.yield_now();
    if yielded {
        schedule(scb);
    }
    yielded
}

/// The current thread starts to wait for `reason`, as
/// `Scheduler::block_current` does, and the deferred trap is requested if
/// the thread was running.
pub fn block_current(sched: &mut Scheduler, scb: &mut Scb, reason: BlockReason) -> (blocked: bool)
    requires
        old(sched).wf(),
    ensures
        final(sched).wf(),
        blocked <==> current_running(old(sched)@),
        final(sched)@ == after_leave(old(sched)@, ThreadState::Blocked(reason)),
        *final(scb) == requested(*old(scb), blocked),
{
    let blocked = sched.block_current(reason);
    if blocked {
        schedule(scb);
    }
    blocked
}

/// The entry function of the current thread has returned: the thread ends,
/// as `Scheduler::cleanup` does, and the deferred trap is requested if the
/// thread was running.
pub fn cleanup(sched: &mut Scheduler, scb: &mut Scb) -> (ended: bool)
    requires
        old(sched).wf(),
    ensures
        final(sched).wf(),
        ended <==> current_running(old(sched)@),
        final(sched)@ == after_leave(old(sched)@, ThreadState::Terminated),
        *final(scb) == requested(*old(scb), ended),
{
    let ended = sched.cleanup();
    if ended {
        schedule(scb);
    }
    ended
}

/// Creates a thread, as `Scheduler::create_thread` does, and asks core
/// `core` to run the scheduler.
pub fn create_thread_on(
    sched: &mut Scheduler,
    lines: &mut RequestLines,
    core: CoreId,
    entry: u32,
    arg: u32,
    stack: &mut Vec<u8>,
    stack_start: u32,
    prio: RunqueueId,
    cleanup: u32,
) -> (id: ThreadId)
    requires
        old(sched).wf(),
        (prio as int) < old(sched)@.queue.len(),
        !none_free_below(old(sched)@.threads, old(sched)@.threads.len() as int),
        old(stack)@.len() >= MIN_STACK_SIZE,
        stack_start + old(stack)@.len() <= u32::MAX,
        core.0 < 2,
    ensures
        final(sched).wf(),
        (id as int) < old(sched)@.threads.len(),
        old(sched)@.threads[id as int].state == ThreadState::New,
        none_free_below(old(sched)@.threads, id as int),
        final(sched)@ == after_create(
            old(sched)@,
            id,
            prio,
            initial_sp(stack_start, old(stack)@.len()) as usize,
            stack_start as usize,
            (stack_start + old(stack)@.len()) as usize,
        ),
        final(stack)@.len() == old(stack)@.len(),
        forall|i: int|
            0 <= i < 8 ==> #[trigger] word_at(
                final(stack)@,
                initial_sp(stack_start, old(stack)@.len()) - stack_start + 4 * i,
            ) == frame_word(i, entry, arg, cleanup),
        forall|j: int|
            0 <= j < initial_sp(stack_start, old(stack)@.len()) - stack_start ==> final(stack)@[j]
                == STACK_PAINT,
        forall|j: int|
            initial_sp(stack_start, old(stack)@.len()) - stack_start + 32 <= j < old(stack)@.len()
                ==> final(stack)@[j] == old(stack)@[j],
        *final(lines) == requested_on(*old(lines), core, true),
{
    let id = sched.create_thread(entry, arg, stack, stack_start, prio, cleanup);
    Chip::schedule_on_core(lines, core);
    id
}

/// Wakes thread `id` and, if it was blocked, asks core `core` to run the
/// scheduler.
pub fn set_runnable_on(
    sched: &mut Scheduler,
    lines: &mut RequestLines,
    core: CoreId,
    id: ThreadId,
) -> (woken: bool)
    requires
        old(sched).wf(),
        core.0 < 2,
    ensures
        final(sched).wf(),
        woken <==> ((id as int) < old(sched)@.threads.len() && is_blocked(
            old(sched)@.threads[id as int].state,
        )),
        final(sched)@ == after_set_runnable(old(sched)@, id),
        *final(lines) == requested_on(*old(lines), core, woken),
{
    let woken = sched.set_runnable(id);
    if woken {
        Chip::schedule_on_core(lines, core);
    }
    woken
}

/// The current thread gives up the CPU and, if it was running, core `core`
/// is asked to run the scheduler.
pub fn yield_now_on(sched: &mut Scheduler, lines: &mut RequestLines, core: CoreId) -> (yielded:
    bool)
    requires
        old(sched).wf(),
        core.0 < 2,
    ensures
        final(sched).wf(),
        yielded <==> current_running(old(sched)@),
        final(sched)@ == after_yield(old(sched)@),
        *final(lines) == requested_on(*old(lines), core, yielded),
{
    let yielded = sched.yield_now();
    if yielded {
        Chip::schedule_on_core(lines, core);
    }
    yielded
}

/// The current thread starts to wait for `reason` and, if it was running,
/// core `core` is asked to run the scheduler.
pub fn block_current_on(
    sched: &mut Scheduler,
    lines: &mut RequestLines,
    core: CoreId,
    reason: BlockReason,
) -> (blocked: bool)
    requires
        old(sched).wf(),
        core.0 < 2,
    ensures
        final(sched).wf(),
        blocked <==> current_running(old(sched)@),
        final(sched)@ == after_leave(old(sched)@, ThreadState::Blocked(reason)),
        *final(lines) == requested_on(*old(lines), core, blocked),
{
    let blocked = sched.block_current(reason);
    if blocked {
        Chip::schedule_on_core(lines, core);
    }
    blocked
}

/// The current thread ends and, if it was running, core `core` is asked to
/// run the scheduler.
pub fn cleanup_on(sched: &mut Scheduler, lines: &mut RequestLines, core: CoreId) -> (ended: bool)
    requires
        old(sched).wf(),
        core.0 < 2,
    ensures
        final(sched).wf(),
        ended <==> current_running(old(sched)@),
        final(sched)@ == after_leave(old(sched)@, ThreadState::Terminated),
        *final(lines) == requested_on(*old(lines), core, ended),
{
    let ended = sched.cleanup();
    if ended {
        Chip::schedule_on_core(lines, core);
    }
    ended
}

} // verus!
