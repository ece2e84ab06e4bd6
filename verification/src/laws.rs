//! What holds of the scheduler over whole histories: the events that can
//! reach it, the state after any sequence of them, and the laws that follow
//! from the invariant.

use vstd::prelude::*;
use crate::runqueue::{empty_from, is_top_level, next_of, top_level, RunqueueId, ThreadId};
use crate::runqueue::{lemma_top_level_is, lemma_top_level_none};
use crate::sched::{
    after_create, after_leave, after_set_runnable, after_yield, current_running, elect, enqueue,
    entry_ok, inv, is_blocked, level_ok, sched_result, thread_ok, trap_result, with_regs, with_sp,
    Decision, SchedView,
};
use crate::sched::{
    lemma_create_inv, lemma_elect_inv, lemma_enqueue_inv, lemma_with_regs_inv,
    lemma_with_sp_inv, lemma_with_state_inv,
};
use crate::threads::{none_free_below, BlockReason, Thread, ThreadState};
use crate::trap::{cpu_after_trap, Cpu};

verus! {

/// What can happen to the scheduler.
pub enum Event {
    /// A thread is created. Nothing happens if no slot is free or the
    /// priority is not a level of the run queue.
    Create { prio: RunqueueId, sp: usize, stack_lowest: usize, stack_highest: usize },
    /// A thread is woken.
    SetRunnable(ThreadId),
    /// The current thread gives up the CPU of its own accord.
    Yield,
    /// The current thread starts to wait.
    Block(BlockReason),
    /// The entry function of the current thread has returned.
    Cleanup,
    /// The deferred trap fires, with the interrupted stack pointer and the
    /// registers that the trap entry did not push.
    Trap { old_sp: usize, regs: [usize; 8] },
}

/// Whether a thread can be created in `v` at priority `prio`.
pub open spec fn can_create(v: SchedView, prio: RunqueueId) -> bool {
    (prio as int) < v.queue.len() && !none_free_below(v.threads, v.threads.len() as int)
}

/// The lowest slot of `v` in state `New`.
pub open spec fn lowest_free(v: SchedView) -> ThreadId {
    choose|id: ThreadId|
        (id as int) < v.threads.len() && v.threads[id as int].state == ThreadState::New
            && none_free_below(v.threads, id as int)
}

/// The state after event `e` on state `v`.
pub open spec fn step(v: SchedView, e: Event) -> SchedView {
    match e {
        Event::Create { prio, sp, stack_lowest, stack_highest } => if can_create(v, prio) {
            after_create(v, lowest_free(v), prio, sp, stack_lowest, stack_highest)
        } else {
            v
        },
        Event::SetRunnable(id) => after_set_runnable(v, id),
        Event::Yield => after_yield(v),
        Event::Block(reason) => after_leave(v, ThreadState::Blocked(reason)),
        Event::Cleanup => after_leave(v, ThreadState::Terminated),
        Event::Trap { old_sp, regs } => trap_result(v, old_sp, regs).0,
    }
}

/// The state after the events `es`, in order, on state `v`.
pub open spec fn run(v: SchedView, es: Seq<Event>) -> SchedView
    decreases es.len(),
{
    if es.len() == 0 {
        v
    } else {
        step(run(v, es.drop_last()), es.last())
    }
}

/// Where a slot is free, `lowest_free` names the lowest one.
pub proof fn lemma_lowest_free(v: SchedView)
    requires
        !none_free_below(v.threads, v.threads.len() as int),
        v.threads.len() <= 256,
    ensures
        (lowest_free(v) as int) < v.threads.len(),
        v.threads[lowest_free(v) as int].state == ThreadState::New,
        none_free_below(v.threads, lowest_free(v) as int),
{
    lemma_some_lowest_free(v.threads, v.threads.len() as int);
}

proof fn lemma_some_lowest_free(t: Seq<Thread>, n: int)
    requires
        0 <= n <= t.len() <= 256,
        !none_free_below(t, n),
    ensures
        exists|id: ThreadId|
            (id as int) < n && t[id as int].state == ThreadState::New && none_free_below(
                t,
                id as int,
            ),
    decreases n,
{
    if n > 0 {
        if none_free_below(t, n - 1) {
            let id = (n - 1) as ThreadId;
            assert(t[id as int].state == ThreadState::New);
            assert((id as int) < n && t[id as int].state == ThreadState::New && none_free_below(
                t,
                id as int,
            ));
        } else {
            lemma_some_lowest_free(t, n - 1);
        }
    }
}

/// The scheduling decision keeps the invariant.
pub proof fn lemma_sched_inv(v: SchedView, old_sp: usize)
    requires
        inv(v),
    ensures
        inv(sched_result(v, old_sp).0),
{
    let mid = after_yield(v);
    if current_running(v) {
        lemma_enqueue_inv(v, v.current.unwrap());
    }
    assert(!current_running(mid));
    match next_of(mid.queue) {
        None => {},
        Some(n) => {
            let p = top_level(mid.queue).unwrap();
            lemma_elect_inv(mid, p);
            match v.current {
                Some(c) => {
                    lemma_with_sp_inv(elect(mid, n), c, old_sp);
                },
                None => {},
            }
        },
    }
}

/// The deferred trap keeps the invariant.
pub proof fn lemma_trap_inv(v: SchedView, old_sp: usize, regs: [usize; 8])
    requires
        inv(v),
    ensures
        inv(trap_result(v, old_sp, regs).0),
{
    lemma_sched_inv(v, old_sp);
    lemma_switch_ids(v, old_sp);
    let (w, d) = sched_result(v, old_sp);
    match d {
        Decision::Switch { from: Some(c), to, next_sp } => {
            lemma_sched_frame(v, old_sp, c);
            lemma_with_regs_inv(w, c, regs);
        },
        _ => {},
    }
}

/// Every event keeps the invariant.
pub proof fn lemma_step_inv(v: SchedView, e: Event)
    requires
        inv(v),
    ensures
        inv(step(v, e)),
{
    match e {
        Event::Create { prio, sp, stack_lowest, stack_highest } => {
            if can_create(v, prio) {
                lemma_lowest_free(v);
                lemma_create_inv(v, lowest_free(v), prio, sp, stack_lowest, stack_highest);
            }
        },
        Event::SetRunnable(id) => {
            if (id as int) < v.threads.len() && is_blocked(v.threads[id as int].state) {
                lemma_enqueue_inv(v, id);
            }
        },
        Event::Yield => {
            if current_running(v) {
                lemma_enqueue_inv(v, v.current.unwrap());
            }
        },
        Event::Block(reason) => {
            if current_running(v) {
                lemma_with_state_inv(v, v.current.unwrap(), ThreadState::Blocked(reason));
            }
        },
        Event::Cleanup => {
            if current_running(v) {
                lemma_with_state_inv(v, v.current.unwrap(), ThreadState::Terminated);
            }
        },
        Event::Trap { old_sp, regs } => {
            lemma_trap_inv(v, old_sp, regs);
        },
    }
}

/// The invariant holds after every sequence of events: a thread is queued
/// exactly while it is `Runnable`, and at most one thread is `Running`.
pub proof fn law_invariant_always(v: SchedView, es: Seq<Event>)
    requires
        inv(v),
    ensures
        inv(run(v, es)),
    decreases es.len(),
{
    if es.len() > 0 {
        law_invariant_always(v, es.drop_last());
        lemma_step_inv(run(v, es.drop_last()), es.last());
    }
}

/// Under the invariant the thread that runs next is `Runnable`, no
/// `Runnable` thread has a higher priority, and it is the head of its level,
/// ahead of every other thread of its priority. If nothing runs next, no
/// thread is `Runnable`.
pub proof fn law_next_is_highest_and_oldest(v: SchedView)
    requires
        inv(v),
    ensures
        match next_of(v.queue) {
            Some(n) => {
                &&& (n as int) < v.threads.len()
                &&& v.threads[n as int].state == ThreadState::Runnable
                &&& v.queue[v.threads[n as int].prio as int][0] == n
                &&& forall|id: int|
                    0 <= id < v.threads.len() && (#[trigger] v.threads[id]).state
                        == ThreadState::Runnable ==> v.threads[id].prio
                        <= v.threads[n as int].prio
                &&& forall|id: int|
                    0 <= id < v.threads.len() && id != n && (#[trigger] v.threads[id]).state
                        == ThreadState::Runnable && v.threads[id].prio
                        == v.threads[n as int].prio ==> v.queue[v.threads[id].prio as int].index_of(
                        id as ThreadId,
                    ) > 0
            },
            None => forall|id: int|
                0 <= id < v.threads.len() ==> (#[trigger] v.threads[id]).state
                    != ThreadState::Runnable,
        },
{
    match top_level(v.queue) {
        Some(p) => {
            let c = choose|c: int| is_top_level(v.queue, c);
            assert(is_top_level(v.queue, p));
            let n = v.queue[p][0];
            assert(entry_ok(v, p, 0));
            assert forall|id: int|
                0 <= id < v.threads.len() && (#[trigger] v.threads[id]).state
                    == ThreadState::Runnable implies v.threads[id].prio <= v.threads[n as int].prio by {
                assert(thread_ok(v, id));
                let l = v.threads[id].prio as int;
                if l > p {
                    assert(v.queue[l].len() == 0);
                    assert(false);
                }
            }
            assert forall|id: int|
                0 <= id < v.threads.len() && id != n && (#[trigger] v.threads[id]).state
                    == ThreadState::Runnable && v.threads[id].prio
                    == v.threads[n as int].prio implies v.queue[v.threads[id].prio as int].index_of(
                id as ThreadId,
            ) > 0 by {
                assert(thread_ok(v, id));
            }
        },
        None => {
            assert forall|id: int| 0 <= id < v.threads.len() implies (#[trigger] v.threads[id]).state
                != ThreadState::Runnable by {
                assert(thread_ok(v, id));
                if v.threads[id].state == ThreadState::Runnable {
                    lemma_some_top_level(v.queue, v.queue.len() as int, v.threads[id].prio as int);
                    assert(false);
                }
            }
        },
    }
}

/// Where a level below `n` holds a thread and every level from `n` upwards
/// is empty, some level is the highest that holds a thread.
pub proof fn lemma_some_top_level(q: Seq<Seq<ThreadId>>, n: int, l: int)
    requires
        0 <= l < n <= q.len(),
        q[l].len() > 0,
        empty_from(q, n),
    ensures
        exists|p: int| is_top_level(q, p),
    decreases n,
{
    if q[n - 1].len() > 0 {
        assert(is_top_level(q, n - 1));
    } else {
        lemma_some_top_level(q, n - 1, l);
    }
}

/// Where the current thread is `Running` and no other thread is `Runnable`,
/// the deferred trap decides `Keep` and changes nothing: no stack pointer
/// and no register is stored, and none is loaded.
pub proof fn law_sole_thread_keeps(v: SchedView, cpu: Cpu)
    requires
        inv(v),
        current_running(v),
        empty_from(v.queue, 0),
    ensures
        trap_result(v, cpu.psp, cpu.high_regs) == (v, Decision::Keep),
        cpu_after_trap(cpu, v, Decision::Keep).psp == cpu.psp,
        cpu_after_trap(cpu, v, Decision::Keep).high_regs == cpu.high_regs,
{
    lemma_sole_thread_keeps(v, cpu.psp);
}

proof fn lemma_sole_thread_keeps(v: SchedView, old_sp: usize)
    requires
        inv(v),
        current_running(v),
        empty_from(v.queue, 0),
    ensures
        sched_result(v, old_sp) == (v, Decision::Keep),
{
    let c = v.current.unwrap();
    let mid = after_yield(v);
    let p = v.threads[c as int].prio as int;
    assert(thread_ok(v, c as int));
    assert(v.queue[p].len() == 0);
    assert(mid.queue[p] =~= seq![c]);
    assert(is_top_level(mid.queue, p)) by {
        assert forall|l: int| p + 1 <= l < mid.queue.len() implies (#[trigger] mid.queue[l]).len()
            == 0 by {
            assert(v.queue[l].len() == 0);
        }
    }
    lemma_top_level_is(mid.queue, p);
    let w = elect(mid, c);
    assert(w.queue[p] =~= v.queue[p]);
    assert(w.queue =~= v.queue);
    assert(w.threads =~= v.threads);
}

/// One scheduling round: the current thread yields and the trap fires.
pub open spec fn round(v: SchedView, old_sp: usize, regs: [usize; 8]) -> SchedView {
    step(step(v, Event::Yield), Event::Trap { old_sp, regs })
}

/// The state after one round for each pair of `cs`, in order. A pair holds
/// the stack pointer and the registers that the trap finds.
pub open spec fn rounds(v: SchedView, cs: Seq<(usize, [usize; 8])>) -> SchedView
    decreases cs.len(),
{
    if cs.len() == 0 {
        v
    } else {
        round(rounds(v, cs.drop_last()), cs.last().0, cs.last().1)
    }
}

/// The current thread `c` of priority `p` is `Running`, and no thread of a
/// higher priority is `Runnable`.
pub open spec fn runs_at_top(v: SchedView, c: ThreadId, p: int) -> bool {
    &&& inv(v)
    &&& v.current == Some(c)
    &&& v.threads[c as int].state == ThreadState::Running
    &&& v.threads[c as int].prio == p
    &&& empty_from(v.queue, p + 1)
}

/// One round among threads of the highest priority: the head of the level
/// takes the CPU and the thread that had it joins the tail.
pub proof fn lemma_round(v: SchedView, c: ThreadId, p: int, old_sp: usize, regs: [usize; 8])
    requires
        runs_at_top(v, c, p),
        v.queue[p].len() > 0,
    ensures
        runs_at_top(round(v, old_sp, regs), v.queue[p][0], p),
        round(v, old_sp, regs).queue[p] == v.queue[p].drop_first().push(c),
{
    assert(thread_ok(v, c as int));
    let y = after_yield(v);
    lemma_enqueue_inv(v, c);
    assert(after_yield(y) == y);
    let n = v.queue[p][0];
    assert(y.queue[p][0] == n);
    assert(is_top_level(y.queue, p)) by {
        assert forall|l: int| p + 1 <= l < y.queue.len() implies (#[trigger] y.queue[l]).len()
            == 0 by {
            assert(v.queue[l].len() == 0);
        }
    }
    lemma_top_level_is(y.queue, p);
    lemma_elect_inv(y, p);
    let w = elect(y, n);
    assert(entry_ok(v, p, 0));
    assert(n != c);
    lemma_trap_inv(y, old_sp, regs);
    let r = round(v, old_sp, regs);
    assert(r == with_regs(with_sp(w, c, old_sp), c, regs));
    assert(r.queue[p] =~= v.queue[p].drop_first().push(c));
    assert forall|l: int| p + 1 <= l < r.queue.len() implies (#[trigger] r.queue[l]).len()
        == 0 by {
        assert(v.queue[l].len() == 0);
    }
}

/// Starvation bound. Let `n` threads share the highest priority among the
/// threads that want the CPU: the current one and the `n - 1` queued at its
/// level. If each yields when it has the CPU, then after `k` rounds, for
/// every `k` from 1 to `n - 1`, the CPU is with the thread that was `k`-th
/// in the queue. So every one of them has run within `n` rounds.
pub proof fn law_round_robin(v: SchedView, c: ThreadId, p: int, cs: Seq<(usize, [usize; 8])>)
    requires
        runs_at_top(v, c, p),
        1 <= cs.len() <= v.queue[p].len(),
    ensures
        rounds(v, cs).current == Some(v.queue[p][cs.len() - 1]),
        current_running(rounds(v, cs)),
        inv(rounds(v, cs)),
{
    lemma_rounds(v, c, p, cs);
}

proof fn lemma_rounds(v: SchedView, c: ThreadId, p: int, cs: Seq<(usize, [usize; 8])>)
    requires
        runs_at_top(v, c, p),
        1 <= cs.len() <= v.queue[p].len(),
    ensures
        runs_at_top(rounds(v, cs), v.queue[p][cs.len() - 1], p),
        rounds(v, cs).queue[p] == v.queue[p].subrange(cs.len() as int, v.queue[p].len() as int).push(
            c,
        ) + v.queue[p].subrange(0, cs.len() - 1),
    decreases cs.len(),
{
    let s = v.queue[p];
    let k = cs.len() as int;
    if k == 1 {
        assert(cs.drop_last().len() == 0);
        assert(rounds(v, cs.drop_last()) == v);
        lemma_round(v, c, p, cs.last().0, cs.last().1);
        assert(s.drop_first().push(c) =~= s.subrange(1, s.len() as int).push(c) + s.subrange(
            0,
            0,
        ));
    } else {
        lemma_rounds(v, c, p, cs.drop_last());
        let u = rounds(v, cs.drop_last());
        let cur = s[k - 2];
        assert(u.queue[p] == s.subrange(k - 1, s.len() as int).push(c) + s.subrange(0, k - 2));
        assert(u.queue[p][0] == s[k - 1]);
        lemma_round(u, cur, p, cs.last().0, cs.last().1);
        assert(u.queue[p].drop_first().push(cur) =~= s.subrange(k, s.len() as int).push(c)
            + s.subrange(0, k - 1));
    }
}

/// Whether thread `id` is off the CPU in `v`: it exists and is not the
/// current thread.
pub open spec fn off_cpu(v: SchedView, id: ThreadId) -> bool {
    &&& (id as int) < v.threads.len()
    &&& v.threads[id as int].state != ThreadState::New
    &&& v.current != Some(id)
}

/// What the scheduling decision leaves alone: the number of slots, and of
/// every thread but the interrupted one the saved stack pointer, of every
/// thread the saved registers, the priority and the stack; no slot becomes
/// `New`.
pub proof fn lemma_sched_frame(v: SchedView, old_sp: usize, id: ThreadId)
    requires
        inv(v),
        (id as int) < v.threads.len(),
    ensures
        sched_result(v, old_sp).0.threads.len() == v.threads.len(),
        sched_result(v, old_sp).0.threads[id as int].high_regs == v.threads[id as int].high_regs,
        v.current != Some(id) ==> sched_result(v, old_sp).0.threads[id as int].sp
            == v.threads[id as int].sp,
        v.threads[id as int].state != ThreadState::New ==> sched_result(
            v,
            old_sp,
        ).0.threads[id as int].state != ThreadState::New,
        sched_result(v, old_sp).1 matches Decision::Switch { from, .. } && from == Some(id)
            ==> sched_result(v, old_sp).0.threads[id as int].sp == old_sp,
{
    let mid = after_yield(v);
    if current_running(v) {
        lemma_enqueue_inv(v, v.current.unwrap());
    }
    assert(mid.threads.len() == v.threads.len());
    assert(mid.threads[id as int].sp == v.threads[id as int].sp);
    assert(mid.threads[id as int].high_regs == v.threads[id as int].high_regs);
    match next_of(mid.queue) {
        None => {},
        Some(n) => {
            let p = top_level(mid.queue).unwrap();
            assert(is_top_level(mid.queue, p));
            lemma_elect_inv(mid, p);
            let w = elect(mid, n);
            assert(w.threads.len() == v.threads.len());
            assert(w.threads[id as int].sp == v.threads[id as int].sp);
            assert(w.threads[id as int].high_regs == v.threads[id as int].high_regs);
        },
    }
}

/// The threads that a switch names exist and differ: the one that takes
/// over is not the one that had the CPU.
pub proof fn lemma_switch_ids(v: SchedView, old_sp: usize)
    requires
        inv(v),
    ensures
        sched_result(v, old_sp).1 matches Decision::Switch { from, to, next_sp } ==> {
            &&& (to as int) < v.threads.len()
            &&& from == v.current
            &&& from != Some(to)
            &&& from matches Some(c) ==> (c as int) < v.threads.len()
            &&& next_sp == v.threads[to as int].sp
        },
{
    let mid = after_yield(v);
    if current_running(v) {
        lemma_enqueue_inv(v, v.current.unwrap());
    }
    match next_of(mid.queue) {
        None => {},
        Some(n) => {
            let p = top_level(mid.queue).unwrap();
            assert(is_top_level(mid.queue, p));
            lemma_elect_inv(mid, p);
        },
    }
}

/// No event touches the saved stack pointer or the saved registers of a
/// thread that is off the CPU.
pub proof fn law_context_untouched_off_cpu(v: SchedView, e: Event, id: ThreadId)
    requires
        inv(v),
        off_cpu(v, id),
    ensures
        step(v, e).threads[id as int].sp == v.threads[id as int].sp,
        step(v, e).threads[id as int].high_regs == v.threads[id as int].high_regs,
        step(v, e).threads[id as int].state != ThreadState::New,
        step(v, e).threads.len() == v.threads.len(),
{
    match e {
        Event::Create { prio, sp, stack_lowest, stack_highest } => {
            if can_create(v, prio) {
                lemma_lowest_free(v);
            }
        },
        Event::SetRunnable(t) => {},
        Event::Yield => {},
        Event::Block(reason) => {},
        Event::Cleanup => {},
        Event::Trap { old_sp, regs } => {
            lemma_sched_frame(v, old_sp, id);
            lemma_switch_ids(v, old_sp);
        },
    }
}

/// Round trip. When the deferred trap takes the CPU from thread `c`, with
/// stack pointer `old_sp` and registers `regs`, then, whatever happens while
/// `c` is off the CPU, the trap that next gives the CPU to `c` hands back
/// that stack pointer and loads those registers.
pub proof fn law_resume_where_left(
    v: SchedView,
    c: ThreadId,
    old_sp: usize,
    regs: [usize; 8],
    es: Seq<Event>,
    later: Cpu,
)
    requires
        inv(v),
        trap_result(v, old_sp, regs).1 matches Decision::Switch { from, .. } && from == Some(c),
        forall|k: int|
            0 <= k <= es.len() ==> #[trigger] run(trap_result(v, old_sp, regs).0, es.take(k)).current
                != Some(c),
        trap_result(run(trap_result(v, old_sp, regs).0, es), later.psp, later.high_regs).1 matches Decision::Switch {
            to,
            ..
        } && to == c,
    ensures
        ({
            let u = run(trap_result(v, old_sp, regs).0, es);
            let d = trap_result(u, later.psp, later.high_regs).1;
            &&& cpu_after_trap(later, u, d).psp == old_sp
            &&& cpu_after_trap(later, u, d).high_regs == regs
        }),
{
    let w = trap_result(v, old_sp, regs).0;
    lemma_trap_inv(v, old_sp, regs);
    lemma_switch_ids(v, old_sp);
    lemma_sched_frame(v, old_sp, c);
    assert(w.threads[c as int].sp == old_sp);
    assert(w.threads[c as int].high_regs == regs);
    lemma_context_kept(w, c, es);
    let u = run(w, es);
    lemma_switch_ids(u, later.psp);
}

proof fn lemma_context_kept(w: SchedView, c: ThreadId, es: Seq<Event>)
    requires
        inv(w),
        (c as int) < w.threads.len(),
        w.threads[c as int].state != ThreadState::New,
        forall|k: int| 0 <= k <= es.len() ==> #[trigger] run(w, es.take(k)).current != Some(c),
    ensures
        inv(run(w, es)),
        off_cpu(run(w, es), c),
        run(w, es).threads[c as int].sp == w.threads[c as int].sp,
        run(w, es).threads[c as int].high_regs == w.threads[c as int].high_regs,
        run(w, es).threads.len() == w.threads.len(),
    decreases es.len(),
{
    assert(es.take(es.len() as int) =~= es);
    assert(run(w, es.take(es.len() as int)).current != Some(c));
    if es.len() == 0 {
    } else {
        let pre = es.drop_last();
        assert forall|k: int| 0 <= k <= pre.len() implies #[trigger] run(w, pre.take(k)).current
            != Some(c) by {
            assert(pre.take(k) =~= es.take(k));
        }
        lemma_context_kept(w, c, pre);
        let u = run(w, pre);
        lemma_step_inv(u, es.last());
        law_context_untouched_off_cpu(u, es.last(), c);
    }
}

/// Whether thread `id` wants the CPU or has it.
pub open spec fn wants_cpu(v: SchedView, id: int) -> bool {
    v.threads[id].state == ThreadState::Runnable || v.threads[id].state == ThreadState::Running
}

/// Wake-up. When a blocked thread is woken whose priority is above that of
/// every thread that wants the CPU or has it, the next deferred trap gives
/// it the CPU.
pub proof fn law_woken_top_thread_runs_next(v: SchedView, t: ThreadId, cpu: Cpu)
    requires
        inv(v),
        (t as int) < v.threads.len(),
        is_blocked(v.threads[t as int].state),
        forall|id: int|
            0 <= id < v.threads.len() && #[trigger] wants_cpu(v, id) ==> v.threads[id].prio
                < v.threads[t as int].prio,
    ensures
        ({
            let woken = step(v, Event::SetRunnable(t));
            let (after, decision) = trap_result(woken, cpu.psp, cpu.high_regs);
            &&& after.current == Some(t)
            &&& after.threads[t as int].state == ThreadState::Running
            &&& v.current == Some(t) ==> decision == Decision::Keep
            &&& v.current != Some(t) ==> decision == (Decision::Switch {
                from: v.current,
                to: t,
                next_sp: v.threads[t as int].sp,
            })
        }),
{
    let woken = enqueue(v, t);
    lemma_enqueue_inv(v, t);
    assert(thread_ok(v, t as int));
    let p = v.threads[t as int].prio as int;
    assert(v.queue[p].len() == 0) by {
        if v.queue[p].len() > 0 {
            assert(entry_ok(v, p, 0));
            assert(wants_cpu(v, v.queue[p][0] as int));
        }
    }
    assert(woken.queue[p] =~= seq![t]);
    let mid = after_yield(woken);
    if current_running(woken) {
        let c = woken.current.unwrap();
        assert(wants_cpu(v, c as int));
        assert(thread_ok(v, c as int));
        lemma_enqueue_inv(woken, c);
        assert(mid.queue[p] =~= seq![t]);
    }
    assert(is_top_level(mid.queue, p)) by {
        assert forall|l: int| p + 1 <= l < mid.queue.len() implies (#[trigger] mid.queue[l]).len()
            == 0 by {
            if mid.queue[l].len() > 0 {
                assert(entry_ok(mid, l, 0));
                let x = mid.queue[l][0] as int;
                assert(x != t as int);
                assert(wants_cpu(v, x));
            }
        }
    }
    lemma_top_level_is(mid.queue, p);
    lemma_elect_inv(mid, p);
    lemma_switch_ids(woken, cpu.psp);
    lemma_sched_frame(woken, cpu.psp, t);
}

} // verus!
