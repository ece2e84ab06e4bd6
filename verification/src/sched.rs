//! The scheduler: the thread table, the run queue and the thread that has
//! the CPU, held together by one invariant, and the decision which thread
//! runs next.
//!
//! The run queue holds exactly the threads in state `Runnable`. The thread
//! that has the CPU is in state `Running` and is not queued.

use vstd::prelude::*;
use crate::runqueue::{empty_from, is_top_level, next_of, RunQueue, RunqueueId, ThreadId};
use crate::runqueue::{lemma_top_level_is, lemma_top_level_none};
use crate::threads::{none_free_below, BlockReason, Thread, ThreadState, ThreadTable};
use crate::arch::{
    frame_word, initial_sp, lemma_word_at_same, setup_stack, word_at, MIN_STACK_SIZE,
};
use crate::stack::STACK_PAINT;

verus! {

/// What the scheduler holds, as plain values.
pub struct SchedView {
    /// The control blocks, by thread id.
    pub threads: Seq<Thread>,
    /// The FIFO of each priority level, lowest level first, heads at index 0.
    pub queue: Seq<Seq<ThreadId>>,
    /// The thread that has the CPU, or had it when it last gave it up.
    pub current: Option<ThreadId>,
}

/// What the trap layer has to do after a scheduling decision.
#[derive(Clone, Copy, Debug, PartialEq, Eq, Structural)]
pub enum Decision {
    /// The thread that had the CPU keeps it: no register is moved.
    Keep,
    /// The CPU goes to thread `to`, whose saved stack pointer is `next_sp`.
    /// The registers of thread `from`, if there is one, are to be saved.
    Switch { from: Option<ThreadId>, to: ThreadId, next_sp: usize },
    /// No thread is runnable: wait for an interrupt and decide again.
    Idle,
}

/// The entry `i` of level `p` names a thread of that priority in state
/// `Runnable`.
pub open spec fn entry_ok(v: SchedView, p: int, i: int) -> bool {
    let id = v.queue[p][i] as int;
    &&& id < v.threads.len()
    &&& v.threads[id].state == ThreadState::Runnable
    &&& v.threads[id].prio == p
}

/// The priority of thread `id` is a level of the run queue; if the thread is
/// `Runnable` it is queued at that level; if it is `Running` it is the
/// current thread.
pub open spec fn thread_ok(v: SchedView, id: int) -> bool {
    let t = v.threads[id];
    &&& (t.prio as int) < v.queue.len()
    &&& t.state == ThreadState::Runnable ==> v.queue[t.prio as int].contains(id as ThreadId)
    &&& t.state == ThreadState::Running ==> v.current == Some(id as ThreadId)
}

/// No thread is queued twice at level `p`.
pub open spec fn level_ok(v: SchedView, p: int) -> bool {
    v.queue[p].no_duplicates()
}

/// The invariant of the scheduler: a thread is queued if and only if it is
/// `Runnable`, at the level of its priority and once; at most one thread is
/// `Running`, and it is the current one; the current thread is no free slot.
pub open spec fn inv(v: SchedView) -> bool {
    &&& 1 <= v.threads.len() <= 256
    &&& 1 <= v.queue.len() <= 32
    &&& forall|p: int, i: int|
        0 <= p < v.queue.len() && 0 <= i < v.queue[p].len() ==> #[trigger] entry_ok(v, p, i)
    &&& forall|id: int| 0 <= id < v.threads.len() ==> #[trigger] thread_ok(v, id)
    &&& forall|p: int| 0 <= p < v.queue.len() ==> #[trigger] level_ok(v, p)
    &&& v.current matches Some(c) ==> (c as int) < v.threads.len() && v.threads[c as int].state
        != ThreadState::New
}

/// Whether thread `id` is in state `Blocked`, whatever it waits for.
pub open spec fn is_blocked(s: ThreadState) -> bool {
    s matches ThreadState::Blocked(_)
}

/// `v` after thread `id` became `Runnable` and joined the tail of the level
/// of its priority.
pub open spec fn enqueue(v: SchedView, id: ThreadId) -> SchedView {
    let t = v.threads[id as int];
    SchedView {
        threads: v.threads.update(id as int, Thread { state: ThreadState::Runnable, ..t }),
        queue: v.queue.update(t.prio as int, v.queue[t.prio as int].push(id)),
        current: v.current,
    }
}

/// `v` after thread `id` went to state `s`, which is not `Runnable`.
pub open spec fn with_state(v: SchedView, id: ThreadId, s: ThreadState) -> SchedView {
    SchedView {
        threads: v.threads.update(id as int, Thread { state: s, ..v.threads[id as int] }),
        queue: v.queue,
        current: v.current,
    }
}

/// Whether the current thread of `v` is in state `Running`.
pub open spec fn current_running(v: SchedView) -> bool {
    v.current matches Some(c) && v.threads[c as int].state == ThreadState::Running
}

/// `v` after a wake-up of thread `id`: a blocked thread becomes `Runnable`
/// at the tail of its level; any other thread is left as it is.
pub open spec fn after_set_runnable(v: SchedView, id: ThreadId) -> SchedView {
    if (id as int) < v.threads.len() && is_blocked(v.threads[id as int].state) {
        enqueue(v, id)
    } else {
        v
    }
}

/// `v` after the current thread gave up the CPU of its own accord: if it is
/// `Running` it becomes `Runnable` at the tail of its level.
pub open spec fn after_yield(v: SchedView) -> SchedView {
    if current_running(v) {
        enqueue(v, v.current.unwrap())
    } else {
        v
    }
}

/// `v` after the current thread, if `Running`, went to state `s`.
pub open spec fn after_leave(v: SchedView, s: ThreadState) -> SchedView {
    if current_running(v) {
        with_state(v, v.current.unwrap(), s)
    } else {
        v
    }
}

/// `v` after a thread was created in slot `id`.
pub open spec fn after_create(
    v: SchedView,
    id: ThreadId,
    prio: RunqueueId,
    sp: usize,
    stack_lowest: usize,
    stack_highest: usize,
) -> SchedView {
    SchedView {
        threads: v.threads.update(
            id as int,
            Thread {
                state: ThreadState::Runnable,
                prio,
                sp,
                high_regs: v.threads[id as int].high_regs,
                stack_lowest,
                stack_highest,
            },
        ),
        queue: v.queue.update(prio as int, v.queue[prio as int].push(id)),
        current: v.current,
    }
}

/// `v` after the head of the highest level that holds a thread, `n`, took
/// the CPU.
pub open spec fn elect(v: SchedView, n: ThreadId) -> SchedView {
    let p = v.threads[n as int].prio as int;
    SchedView {
        threads: v.threads.update(
            n as int,
            Thread { state: ThreadState::Running, ..v.threads[n as int] },
        ),
        queue: v.queue.update(p, v.queue[p].drop_first()),
        current: Some(n),
    }
}

/// `v` with `sp` as the saved stack pointer of thread `id`.
pub open spec fn with_sp(v: SchedView, id: ThreadId, sp: usize) -> SchedView {
    SchedView {
        threads: v.threads.update(id as int, Thread { sp, ..v.threads[id as int] }),
        queue: v.queue,
        current: v.current,
    }
}

/// The scheduling decision on `v` when the interrupted stack pointer is
/// `old_sp`, and what the scheduler holds after it.
///
/// A current thread that is still `Running` first rejoins the tail of its
/// level. Then the head of the highest level that holds a thread takes the
/// CPU. If that is the thread that had it, nothing else changes. If not,
/// `old_sp` is saved for the thread that had it. If no level holds a
/// thread, nothing changes and the decision is `Idle`.
pub open spec fn sched_result(v: SchedView, old_sp: usize) -> (SchedView, Decision) {
    let mid = after_yield(v);
    match next_of(mid.queue) {
        None => (mid, Decision::Idle),
        Some(n) => {
            let elected = elect(mid, n);
            if v.current == Some(n) {
                (elected, Decision::Keep)
            } else {
                let saved = match v.current {
                    Some(c) => with_sp(elected, c, old_sp),
                    None => elected,
                };
                (
                    saved,
                    Decision::Switch { from: v.current, to: n, next_sp: v.threads[n as int].sp },
                )
            }
        },
    }
}

/// `v` with `regs` as the saved registers of thread `id`.
pub open spec fn with_regs(v: SchedView, id: ThreadId, regs: [usize; 8]) -> SchedView {
    SchedView {
        threads: v.threads.update(id as int, Thread { high_regs: regs, ..v.threads[id as int] }),
        queue: v.queue,
        current: v.current,
    }
}

/// What the deferred trap does to the scheduler when the interrupted stack
/// pointer is `old_sp` and the registers that the trap entry did not push
/// hold `regs`: the scheduling decision, and where the CPU changes hands,
/// `regs` saved for the thread that had it.
pub open spec fn trap_result(v: SchedView, old_sp: usize, regs: [usize; 8]) -> (
    SchedView,
    Decision,
) {
    let (w, d) = sched_result(v, old_sp);
    match d {
        Decision::Switch { from: Some(c), to, next_sp } => (with_regs(w, c, regs), d),
        _ => (w, d),
    }
}

/// A thread that is not `Runnable` is not queued.
pub proof fn lemma_not_queued(v: SchedView, id: ThreadId, p: int)
    requires
        inv(v),
        (id as int) < v.threads.len(),
        v.threads[id as int].state != ThreadState::Runnable,
        0 <= p < v.queue.len(),
    ensures
        !v.queue[p].contains(id),
{
    if v.queue[p].contains(id) {
        let i = choose|i: int| 0 <= i < v.queue[p].len() && v.queue[p][i] == id;
        assert(entry_ok(v, p, i));
    }
}

/// The invariant holds after a thread that was not `Runnable` joined the
/// tail of its level.
pub proof fn lemma_enqueue_inv(v: SchedView, id: ThreadId)
    requires
        inv(v),
        (id as int) < v.threads.len(),
        v.threads[id as int].state != ThreadState::Runnable,
    ensures
        inv(enqueue(v, id)),
{
    let w = enqueue(v, id);
    let t = v.threads[id as int];
    let pr = t.prio as int;
    assert(thread_ok(v, id as int));
    lemma_not_queued(v, id, pr);
    assert forall|p: int, i: int| 0 <= p < w.queue.len() && 0 <= i < w.queue[p].len() implies
        #[trigger] entry_ok(w, p, i) by {
        if p == pr && i == v.queue[pr].len() {
        } else {
            assert(entry_ok(v, p, i));
            if v.queue[p][i] == id {
                assert(false);
            }
        }
    }
    assert forall|x: int| 0 <= x < w.threads.len() implies #[trigger] thread_ok(w, x) by {
        assert(thread_ok(v, x));
        if x == id as int {
            assert(w.queue[pr][v.queue[pr].len() as int] == id);
        } else {
            let tx = v.threads[x];
            if tx.state == ThreadState::Runnable {
                let i = choose|i: int|
                    0 <= i < v.queue[tx.prio as int].len() && v.queue[tx.prio as int][i]
                        == x as ThreadId;
                assert(w.queue[tx.prio as int][i] == x as ThreadId);
            }
        }
    }
    assert forall|p: int| 0 <= p < w.queue.len() implies #[trigger] level_ok(w, p) by {
        assert(level_ok(v, p));
        if p == pr {
            assert forall|i: int, j: int|
                0 <= i < w.queue[p].len() && 0 <= j < w.queue[p].len() && i != j implies w.queue[p][i]
                != w.queue[p][j] by {
                if i < v.queue[p].len() && j < v.queue[p].len() {
                } else if i < v.queue[p].len() {
                    assert(v.queue[p][i] != id);
                } else {
                    assert(v.queue[p][j] != id);
                }
            }
        }
    }
}

/// The invariant holds after a thread that was not `Runnable` went to a
/// state that is none of `Runnable`, `Running` and `New`.
pub proof fn lemma_with_state_inv(v: SchedView, id: ThreadId, s: ThreadState)
    requires
        inv(v),
        (id as int) < v.threads.len(),
        v.threads[id as int].state != ThreadState::Runnable,
        s != ThreadState::Runnable,
        s != ThreadState::Running,
        s != ThreadState::New,
    ensures
        inv(with_state(v, id, s)),
{
    let w = with_state(v, id, s);
    assert forall|p: int, i: int| 0 <= p < w.queue.len() && 0 <= i < w.queue[p].len() implies
        #[trigger] entry_ok(w, p, i) by {
        assert(entry_ok(v, p, i));
    }
    assert forall|x: int| 0 <= x < w.threads.len() implies #[trigger] thread_ok(w, x) by {
        assert(thread_ok(v, x));
    }
    assert forall|p: int| 0 <= p < w.queue.len() implies #[trigger] level_ok(w, p) by {
        assert(level_ok(v, p));
    }
}

/// The invariant does not depend on a saved stack pointer.
pub proof fn lemma_with_sp_inv(v: SchedView, id: ThreadId, sp: usize)
    requires
        inv(v),
        (id as int) < v.threads.len(),
    ensures
        inv(with_sp(v, id, sp)),
{
    let w = with_sp(v, id, sp);
    assert forall|p: int, i: int| 0 <= p < w.queue.len() && 0 <= i < w.queue[p].len() implies
        #[trigger] entry_ok(w, p, i) by {
        assert(entry_ok(v, p, i));
    }
    assert forall|x: int| 0 <= x < w.threads.len() implies #[trigger] thread_ok(w, x) by {
        assert(thread_ok(v, x));
    }
    assert forall|p: int| 0 <= p < w.queue.len() implies #[trigger] level_ok(w, p) by {
        assert(level_ok(v, p));
    }
}

/// The invariant does not depend on saved registers.
pub proof fn lemma_with_regs_inv(v: SchedView, id: ThreadId, regs: [usize; 8])
    requires
        inv(v),
        (id as int) < v.threads.len(),
    ensures
        inv(with_regs(v, id, regs)),
{
    let w = with_regs(v, id, regs);
    assert forall|p: int, i: int| 0 <= p < w.queue.len() && 0 <= i < w.queue[p].len() implies
        #[trigger] entry_ok(w, p, i) by {
        assert(entry_ok(v, p, i));
    }
    assert forall|x: int| 0 <= x < w.threads.len() implies #[trigger] thread_ok(w, x) by {
        assert(thread_ok(v, x));
    }
    assert forall|p: int| 0 <= p < w.queue.len() implies #[trigger] level_ok(w, p) by {
        assert(level_ok(v, p));
    }
}

/// The invariant holds after the head of the highest level took the CPU,
/// provided that no thread was `Running`.
pub proof fn lemma_elect_inv(v: SchedView, p: int)
    requires
        inv(v),
        is_top_level(v.queue, p),
        !current_running(v),
    ensures
        (v.queue[p][0] as int) < v.threads.len(),
        v.threads[v.queue[p][0] as int].prio == p,
        inv(elect(v, v.queue[p][0])),
{
    let n = v.queue[p][0];
    assert(entry_ok(v, p, 0));
    let w = elect(v, n);
    assert(level_ok(v, p));
    assert forall|l: int, i: int| 0 <= l < w.queue.len() && 0 <= i < w.queue[l].len() implies
        #[trigger] entry_ok(w, l, i) by {
        if l == p {
            assert(entry_ok(v, p, i + 1));
            assert(w.queue[p][i] == v.queue[p][i + 1]);
            assert(v.queue[p][i + 1] != v.queue[p][0]);
        } else {
            assert(entry_ok(v, l, i));
        }
    }
    assert forall|x: int| 0 <= x < w.threads.len() implies #[trigger] thread_ok(w, x) by {
        assert(thread_ok(v, x));
        if x != n as int {
            let tx = v.threads[x];
            if tx.state == ThreadState::Runnable {
                let i = choose|i: int|
                    0 <= i < v.queue[tx.prio as int].len() && v.queue[tx.prio as int][i]
                        == x as ThreadId;
                if tx.prio as int == p {
                    assert(i != 0);
                    assert(w.queue[p][i - 1] == x as ThreadId);
                } else {
                    assert(w.queue[tx.prio as int][i] == x as ThreadId);
                }
            }
            if tx.state == ThreadState::Running {
                assert(false);
            }
        }
    }
    assert forall|l: int| 0 <= l < w.queue.len() implies #[trigger] level_ok(w, l) by {
        assert(level_ok(v, l));
        if l == p {
            assert forall|i: int, j: int|
                0 <= i < w.queue[l].len() && 0 <= j < w.queue[l].len() && i != j implies w.queue[l][i]
                != w.queue[l][j] by {
                assert(w.queue[l][i] == v.queue[l][i + 1]);
                assert(w.queue[l][j] == v.queue[l][j + 1]);
            }
        }
    }
}

/// The invariant holds after a thread was created in a free slot.
pub proof fn lemma_create_inv(
    v: SchedView,
    id: ThreadId,
    prio: RunqueueId,
    sp: usize,
    stack_lowest: usize,
    stack_highest: usize,
)
    requires
        inv(v),
        (id as int) < v.threads.len(),
        v.threads[id as int].state == ThreadState::New,
        (prio as int) < v.queue.len(),
    ensures
        inv(after_create(v, id, prio, sp, stack_lowest, stack_highest)),
{
    let w = after_create(v, id, prio, sp, stack_lowest, stack_highest);
    let pr = prio as int;
    lemma_not_queued(v, id, pr);
    assert forall|p: int, i: int| 0 <= p < w.queue.len() && 0 <= i < w.queue[p].len() implies
        #[trigger] entry_ok(w, p, i) by {
        if p == pr && i == v.queue[pr].len() {
        } else {
            assert(entry_ok(v, p, i));
        }
    }
    assert forall|x: int| 0 <= x < w.threads.len() implies #[trigger] thread_ok(w, x) by {
        assert(thread_ok(v, x));
        if x == id as int {
            assert(w.queue[pr][v.queue[pr].len() as int] == id);
        } else {
            let tx = v.threads[x];
            if tx.state == ThreadState::Runnable {
                let i = choose|i: int|
                    0 <= i < v.queue[tx.prio as int].len() && v.queue[tx.prio as int][i]
                        == x as ThreadId;
                assert(w.queue[tx.prio as int][i] == x as ThreadId);
            }
        }
    }
    assert forall|p: int| 0 <= p < w.queue.len() implies #[trigger] level_ok(w, p) by {
        assert(level_ok(v, p));
        if p == pr {
            assert forall|i: int, j: int|
                0 <= i < w.queue[p].len() && 0 <= j < w.queue[p].len() && i != j implies w.queue[p][i]
                != w.queue[p][j] by {
                if i < v.queue[p].len() && j < v.queue[p].len() {
                } else if i < v.queue[p].len() {
                    assert(v.queue[p][i] != id);
                } else {
                    assert(v.queue[p][j] != id);
                }
            }
        }
    }
}

/// The scheduler: thread table, run queue and current thread.
pub struct Scheduler {
    table: ThreadTable,
    runqueue: RunQueue,
    current: Option<ThreadId>,
}

impl View for Scheduler {
    type V = SchedView;

    closed spec fn view(&self) -> SchedView {
        SchedView { threads: self.table@, queue: self.runqueue@, current: self.current }
    }
}

impl Scheduler {
    /// The parts are well formed and the invariant holds.
    pub closed spec fn wf(&self) -> bool {
        &&& self.table.wf()
        &&& self.runqueue.wf()
        &&& inv(self@)
    }

    /// A well-formed scheduler satisfies the invariant.
    pub proof fn lemma_wf_inv(&self)
        requires
            self.wf(),
        ensures
            inv(self@),
    {
    }

    /// Creates a scheduler with `capacity` thread slots, all in state `New`,
    /// `levels` empty priority levels and no current thread.
    pub fn new(capacity: usize, levels: usize) -> (s: Scheduler)
        requires
            1 <= capacity <= 256,
            1 <= levels <= 32,
        ensures
            s.wf(),
            s@.threads.len() == capacity,
            s@.queue.len() == levels,
            s@.current.is_none(),
            empty_from(s@.queue, 0),
            forall|id: int|
                0 <= id < capacity ==> (#[trigger] s@.threads[id]).state == ThreadState::New,
    {
        let table = ThreadTable::new(capacity);
        let runqueue = RunQueue::new(levels);
        let s = Scheduler { table, runqueue, current: None };
        proof {
            let v = s@;
            assert forall|id: int| 0 <= id < v.threads.len() implies #[trigger] thread_ok(
                v,
                id,
            ) by {
                assert(v.threads[id].state == ThreadState::New);
                assert(v.threads[id].prio == 0);
            }
            assert forall|p: int, i: int|
                0 <= p < v.queue.len() && 0 <= i < v.queue[p].len() implies #[trigger] entry_ok(
                v,
                p,
                i,
            ) by {
                assert(v.queue[p].len() == 0);
            }
            assert forall|p: int| 0 <= p < v.queue.len() implies #[trigger] level_ok(v, p) by {
                assert(v.queue[p].len() == 0);
            }
        }
        s
    }

    /// Returns the thread that has the CPU, if there is one.
    pub fn current_id(&self) -> (id: Option<ThreadId>)
        ensures
            id == self@.current,
    {
        self.current
    }

    /// Returns the number of thread slots.
    pub fn capacity(&self) -> (n: usize)
        ensures
            n == self@.threads.len(),
    {
        self.table.capacity()
    }

    /// Returns the number of priority levels.
    pub fn levels(&self) -> (n: usize)
        requires
            self.wf(),
        ensures
            n == self@.queue.len(),
    {
        self.runqueue.n_levels()
    }

    /// Returns the state of thread `id`.
    pub fn get_state(&self, id: ThreadId) -> (state: ThreadState)
        requires
            (id as int) < self@.threads.len(),
        ensures
            state == self@.threads[id as int].state,
    {
        self.table.get_state(id)
    }

    /// Returns the control block of thread `id`.
    pub fn thread(&self, id: ThreadId) -> (t: Thread)
        requires
            (id as int) < self@.threads.len(),
        ensures
            t == self@.threads[id as int],
    {
        self.table.get(id)
    }

    /// Returns the lowest address of the stack of thread `id` and the
    /// address just above it.
    pub fn stack_limits(&self, id: ThreadId) -> (limits: (usize, usize))
        requires
            (id as int) < self@.threads.len(),
        ensures
            limits == (
                self@.threads[id as int].stack_lowest,
                self@.threads[id as int].stack_highest,
            ),
    {
        self.table.stack_limits(id)
    }

    /// Returns the thread that would take the CPU if every thread in state
    /// `Runnable` were considered now: the head of the highest level that
    /// holds a thread. Changes nothing.
    pub fn get_next(&self) -> (next: Option<ThreadId>)
        requires
            self.wf(),
        ensures
            next == next_of(self@.queue),
            next.is_none() <==> empty_from(self@.queue, 0),
    {
        self.runqueue.get_next()
    }

    /// Whether a thread can be created: a slot in state `New` is left.
    pub fn has_free_slot(&self) -> (free: bool)
        requires
            self.wf(),
        ensures
            free <==> !none_free_below(self@.threads, self@.threads.len() as int),
    {
        self.table.find_free().is_some()
    }

    /// Wakes thread `id`: if it is blocked it becomes `Runnable` at the tail
    /// of the level of its priority. Returns whether it was blocked.
    pub fn set_runnable(&mut self, id: ThreadId) -> (woken: bool)
        requires
            old(self).wf(),
        ensures
            final(self).wf(),
            woken <==> ((id as int) < old(self)@.threads.len() && is_blocked(
                old(self)@.threads[id as int].state,
            )),
            final(self)@ == after_set_runnable(old(self)@, id),
    {
        if id as usize >= self.table.capacity() {
            return false;
        }
        let t = self.table.get(id);
        match t.state {
            ThreadState::Blocked(_) => {
                proof {
                    assert(thread_ok(self@, id as int));
                    lemma_enqueue_inv(self@, id);
                }
                self.table.set_state(id, ThreadState::Runnable);
                self.runqueue.add(id, t.prio);
                true
            },
            _ => false,
        }
    }

    /// The current thread gives up the CPU of its own accord: if it is
    /// `Running` it becomes `Runnable` at the tail of its level. Returns
    /// whether it did.
    pub fn yield_now(&mut self) -> (yielded: bool)
        requires
            old(self).wf(),
        ensures
            final(self).wf(),
            yielded <==> current_running(old(self)@),
            final(self)@ == after_yield(old(self)@),
    {
        match self.current {
            Some(c) => {
                let t = self.table.get(c);
                if t.state == ThreadState::Running {
                    proof {
                        assert(thread_ok(self@, c as int));
                        lemma_enqueue_inv(self@, c);
                    }
                    self.table.set_state(c, ThreadState::Runnable);
                    self.runqueue.add(c, t.prio);
                    true
                } else {
                    false
                }
            },
            None => false,
        }
    }

    /// The current thread starts to wait for `reason`: if it is `Running` it
    /// becomes `Blocked`. Returns whether it did.
    pub fn block_current(&mut self, reason: BlockReason) -> (blocked: bool)
        requires
            old(self).wf(),
        ensures
            final(self).wf(),
            blocked <==> current_running(old(self)@),
            final(self)@ == after_leave(old(self)@, ThreadState::Blocked(reason)),
    {
        self.leave(ThreadState::Blocked(reason))
    }

    /// The entry function of the current thread has returned: if the thread
    /// is `Running` it becomes `Terminated`. Returns whether it did.
    pub fn cleanup(&mut self) -> (ended: bool)
        requires
            old(self).wf(),
        ensures
            final(self).wf(),
            ended <==> current_running(old(self)@),
            final(self)@ == after_leave(old(self)@, ThreadState::Terminated),
    {
        self.leave(ThreadState::Terminated)
    }

    fn leave(&mut self, s: ThreadState) -> (left: bool)
        requires
            old(self).wf(),
            s != ThreadState::Runnable,
            s != ThreadState::Running,
            s != ThreadState::New,
        ensures
            final(self).wf(),
            left <==> current_running(old(self)@),
            final(self)@ == after_leave(old(self)@, s),
    {
        match self.current {
            Some(c) => {
                if self.table.get_state(c) == ThreadState::Running {
                    proof {
                        lemma_with_state_inv(self@, c, s);
                    }
                    self.table.set_state(c, s);
                    true
                } else {
                    false
                }
            },
            None => false,
        }
    }

    /// Creates a thread of priority `prio` whose saved stack pointer is `sp`
    /// and whose stack reaches from `stack_lowest` up to `stack_highest`.
    /// The thread takes the lowest slot in state `New`, becomes `Runnable`
    /// and joins the tail of the level of its priority.
    pub fn create(
        &mut self,
        prio: RunqueueId,
        sp: usize,
        stack_lowest: usize,
        stack_highest: usize,
    ) -> (id: ThreadId)
        requires
            old(self).wf(),
            (prio as int) < old(self)@.queue.len(),
            !none_free_below(old(self)@.threads, old(self)@.threads.len() as int),
        ensures
            final(self).wf(),
            (id as int) < old(self)@.threads.len(),
            old(self)@.threads[id as int].state == ThreadState::New,
            none_free_below(old(self)@.threads, id as int),
            final(self)@ == after_create(old(self)@, id, prio, sp, stack_lowest, stack_highest),
    {
        let id = self.table.allocate(prio, sp, stack_lowest, stack_highest);
        proof {
            lemma_create_inv(old(self)@, id, prio, sp, stack_lowest, stack_highest);
        }
        self.runqueue.add(id, prio);
        id
    }

    /// Stores `regs` as the saved registers of thread `id`.
    pub fn save_context(&mut self, id: ThreadId, regs: [usize; 8])
        requires
            old(self).wf(),
            (id as int) < old(self)@.threads.len(),
        ensures
            final(self).wf(),
            final(self)@ == with_regs(old(self)@, id, regs),
    {
        proof {
            lemma_with_regs_inv(self@, id, regs);
        }
        self.table.save_context(id, regs);
    }

    /// Returns the saved registers of thread `id`.
    pub fn restore_context(&self, id: ThreadId) -> (regs: [usize; 8])
        requires
            (id as int) < self@.threads.len(),
        ensures
            regs == self@.threads[id as int].high_regs,
    {
        self.table.restore_context(id)
    }

    /// Whether a thread of priority `prio` with a stack of `stack_len`
    /// bytes at address `stack_start` can be created: a slot is free, the
    /// priority is a level of the run queue, the stack holds the initial
    /// frame and ends within the address space.
    pub fn can_create_thread(&self, stack_len: usize, stack_start: u32, prio: RunqueueId) -> (ok:
        bool)
        requires
            self.wf(),
        ensures
            ok <==> {
                &&& !none_free_below(self@.threads, self@.threads.len() as int)
                &&& (prio as int) < self@.queue.len()
                &&& stack_len >= MIN_STACK_SIZE
                &&& stack_start + stack_len <= u32::MAX
            },
    {
        self.has_free_slot() && (prio as usize) < self.levels() && stack_len >= MIN_STACK_SIZE
            && stack_len <= (u32::MAX - stack_start) as usize
    }

    /// Creates a thread that starts at `entry` with argument `arg`, on the
    /// stack `stack` whose first byte lies at `stack_start`, with priority
    /// `prio`. When `entry` returns the thread goes on at `cleanup`.
    ///
    /// The initial frame is written to the top of the stack, and the stack
    /// below the frame is painted. The thread takes the lowest free slot,
    /// becomes `Runnable` and joins the tail of the level of its priority.
    pub fn create_thread(
        &mut self,
        entry: u32,
        arg: u32,
        stack: &mut Vec<u8>,
        stack_start: u32,
        prio: RunqueueId,
        cleanup: u32,
    ) -> (id: ThreadId)
        requires
            old(self).wf(),
            (prio as int) < old(self)@.queue.len(),
            !none_free_below(old(self)@.threads, old(self)@.threads.len() as int),
            old(stack)@.len() >= MIN_STACK_SIZE,
            stack_start + old(stack)@.len() <= u32::MAX,
        ensures
            final(self).wf(),
            (id as int) < old(self)@.threads.len(),
            old(self)@.threads[id as int].state == ThreadState::New,
            none_free_below(old(self)@.threads, id as int),
            final(self)@ == after_create(
                old(self)@,
                id,
                prio,
                initial_sp(stack_start, old(stack)@.len()) as usize,
                stack_start as usize,
                (stack_start + old(stack)@.len()) as usize,
            ),
            final(stack)@.len() == old(stack)@.len(),
            forall|i: int|
                0 <= i < 8 ==> #[trigger] word_at(
                    final(stack)@,
                    initial_sp(stack_start, old(stack)@.len()) - stack_start + 4 * i,
                ) == frame_word(i, entry, arg, cleanup),
            forall|j: int|
                0 <= j < initial_sp(stack_start, old(stack)@.len()) - stack_start ==> final(stack)@[j] == STACK_PAINT,
            forall|j: int|
                initial_sp(stack_start, old(stack)@.len()) - stack_start + 32 <= j < old(stack)@.len() ==> final(stack)@[j] == old(stack)@[j],
    {
        let len = stack.len();
        let sp = setup_stack(stack, stack_start, entry, arg, cleanup);
        let base = (sp - stack_start) as usize;
        let ghost framed = stack@;
        let mut i: usize = 0;
        while i < base
            invariant
                i <= base,
                base + 36 <= stack.len(),
                stack@.len() == framed.len(),
                forall|j: int| 0 <= j < i ==> stack@[j] == STACK_PAINT,
                forall|j: int| i <= j < stack@.len() ==> stack@[j] == framed[j],
            decreases base - i,
        {
            stack[i] = STACK_PAINT;
            i += 1;
        }
        proof {
            assert forall|k: int| 0 <= k < 8 implies #[trigger] word_at(stack@, base + 4 * k)
                == frame_word(k, entry, arg, cleanup) by {
                lemma_word_at_same(stack@, framed, base + 4 * k);
                assert(word_at(framed, sp - stack_start + 4 * k) == frame_word(
                    k,
                    entry,
                    arg,
                    cleanup,
                ));
            }
        }
        self.create(prio, sp as usize, stack_start as usize, stack_start as usize + len)
    }

    /// Decides which thread runs next. `old_sp` is the stack pointer of the
    /// thread that was interrupted.
    pub fn sched(&mut self, old_sp: usize) -> (decision: Decision)
        requires
            old(self).wf(),
        ensures
            final(self).wf(),
            (final(self)@, decision) == sched_result(old(self)@, old_sp),
    {
        let cur = self.current;
        let _ = self.yield_now();
        let ghost mid = self@;
        proof {
            assert(!current_running(mid));
        }
        match self.runqueue.pop_next() {
            None => {
                proof {
                    lemma_top_level_none(mid.queue);
                }
                Decision::Idle
            },
            Some((n, rq)) => {
                proof {
                    lemma_top_level_is(mid.queue, rq as int);
                    lemma_elect_inv(mid, rq as int);
                }
                let next_sp = self.table.get(n).sp;
                self.table.set_state(n, ThreadState::Running);
                self.current = Some(n);
                proof {
                    assert(self@.threads =~= elect(mid, n).threads);
                    assert(self@ == elect(mid, n));
                }
                if cur == Some(n) {
                    Decision::Keep
                } else {
                    match cur {
                        Some(c) => {
                            proof {
                                lemma_with_sp_inv(self@, c, old_sp);
                            }
                            self.table.set_sp(c, old_sp);
                        },
                        None => {},
                    }
                    Decision::Switch { from: cur, to: n, next_sp }
                }
            },
        }
    }
}

} // verus!
