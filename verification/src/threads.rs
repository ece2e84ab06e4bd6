//! Thread control table: a fixed number of thread control blocks, found by
//! thread id.

use vstd::prelude::*;
use crate::runqueue::{RunqueueId, ThreadId};

verus! {

/// Largest number of slots a thread table can have.
pub const MAX_THREADS: usize = 256;

/// What a blocked thread waits for.
#[derive(Clone, Copy, Debug, PartialEq, Eq, Structural)]
pub enum BlockReason {
    /// Waiting to take a lock.
    Lock,
    /// Waiting to send on or receive from a channel.
    Channel,
    /// Waiting for thread flags.
    Flags,
    /// Waiting for a point in time.
    Timer,
    /// Stopped until it is woken explicitly.
    Paused,
}

/// The state of a slot of the thread table.
#[derive(Clone, Copy, Debug, PartialEq, Eq, Structural)]
pub enum ThreadState {
    /// The slot holds no thread yet.
    New,
    /// The thread waits in the run queue for the CPU.
    Runnable,
    /// The thread has the CPU.
    Running,
    /// The thread waits for something other than the CPU.
    Blocked(BlockReason),
    /// The thread's entry function has returned.
    Terminated,
}

/// A thread control block.
#[derive(Clone, Copy, Debug)]
pub struct Thread {
    /// The state of the thread.
    pub state: ThreadState,
    /// The priority level of the thread. A higher number runs first.
    pub prio: RunqueueId,
    /// The stack pointer saved when the thread last gave up the CPU.
    pub sp: usize,
    /// The registers saved when the thread last gave up the CPU.
    pub high_regs: [usize; 8],
    /// The lowest address of the thread's stack.
    pub stack_lowest: usize,
    /// The address just above the thread's stack.
    pub stack_highest: usize,
}

impl Thread {
    /// Returns the control block of a slot that holds no thread.
    pub fn empty() -> (t: Thread)
        ensures
            t.state == ThreadState::New,
            t.prio == 0,
            t.sp == 0,
            t.stack_lowest == 0,
            t.stack_highest == 0,
            forall|i: int| 0 <= i < 8 ==> t.high_regs[i] == 0,
    {
        Thread {
            state: ThreadState::New,
            prio: 0,
            sp: 0,
            high_regs: [0usize; 8],
            stack_lowest: 0,
            stack_highest: 0,
        }
    }
}

/// Whether no slot of `t` below `n` is in state `New`.
pub open spec fn none_free_below(t: Seq<Thread>, n: int) -> bool {
    forall|i: int| 0 <= i < n && i < t.len() ==> (#[trigger] t[i]).state != ThreadState::New
}

/// The thread table.
pub struct ThreadTable {
    threads: Vec<Thread>,
}

impl View for ThreadTable {
    type V = Seq<Thread>;

    /// The control blocks, by thread id.
    closed spec fn view(&self) -> Seq<Thread> {
        self.threads@
    }
}

impl ThreadTable {
    /// The table has at least one slot and no more than `MAX_THREADS`.
    pub open spec fn wf(&self) -> bool {
        1 <= self@.len() <= MAX_THREADS
    }

    /// Creates a table of `capacity` slots, each in state `New`.
    pub fn new(capacity: usize) -> (table: ThreadTable)
        requires
            1 <= capacity <= MAX_THREADS,
        ensures
            table.wf(),
            table@.len() == capacity,
            forall|i: int|
                0 <= i < capacity ==> (#[trigger] table@[i]).state == ThreadState::New
                    && table@[i].prio == 0,
    {
        let mut threads: Vec<Thread> = Vec::new();
        let mut i: usize = 0;
        while i < capacity
            invariant
                i <= capacity,
                threads@.len() == i,
                forall|j: int|
                    0 <= j < i ==> (#[trigger] threads@[j]).state == ThreadState::New
                        && threads@[j].prio == 0,
            decreases capacity - i,
        {
            threads.push(Thread::empty());
            i += 1;
        }
        ThreadTable { threads }
    }

    /// Returns the number of slots.
    pub fn capacity(&self) -> (n: usize)
        ensures
            n == self@.len(),
    {
        self.threads.len()
    }

    /// Returns the id of the lowest slot in state `New`, if there is one.
    pub fn find_free(&self) -> (slot: Option<ThreadId>)
        requires
            self.wf(),
        ensures
            match slot {
                Some(id) => (id as int) < self@.len() && self@[id as int].state
                    == ThreadState::New && none_free_below(self@, id as int),
                None => none_free_below(self@, self@.len() as int),
            },
    {
        let mut i: usize = 0;
        while i < self.threads.len()
            invariant
                self.wf(),
                i <= self@.len(),
                none_free_below(self@, i as int),
            decreases self@.len() - i,
        {
            if self.threads[i].state == ThreadState::New {
                return Some(i as u8);
            }
            i += 1;
        }
        None
    }

    /// Fills the lowest slot in state `New` with a thread of priority
    /// `prio`, stack pointer `sp` and the stack from `stack_lowest` up to
    /// `stack_highest`, and returns its id. The state of the slot is then
    /// `Runnable`.
    pub fn allocate(
        &mut self,
        prio: RunqueueId,
        sp: usize,
        stack_lowest: usize,
        stack_highest: usize,
    ) -> (id: ThreadId)
        requires
            old(self).wf(),
            !none_free_below(old(self)@, old(self)@.len() as int),
        ensures
            final(self).wf(),
            (id as int) < old(self)@.len(),
            old(self)@[id as int].state == ThreadState::New,
            none_free_below(old(self)@, id as int),
            final(self)@ == old(self)@.update(
                id as int,
                (Thread {
                    state: ThreadState::Runnable,
                    prio,
                    sp,
                    high_regs: old(self)@[id as int].high_regs,
                    stack_lowest,
                    stack_highest,
                }),
            ),
    {
        let slot = self.find_free();
        let id = match slot {
            Some(id) => id,
            None => {
                proof {
                    assert(false);
                }
                0
            },
        };
        let regs = self.threads[id as usize].high_regs;
        self.threads[id as usize] = Thread {
            state: ThreadState::Runnable,
            prio,
            sp,
            high_regs: regs,
            stack_lowest,
            stack_highest,
        };
        id
    }

    /// Returns the control block of thread `id`.
    pub fn get(&self, id: ThreadId) -> (t: Thread)
        requires
            (id as int) < self@.len(),
        ensures
            t == self@[id as int],
    {
        self.threads[id as usize]
    }

    /// Returns the state of thread `id`.
    pub fn get_state(&self, id: ThreadId) -> (state: ThreadState)
        requires
            (id as int) < self@.len(),
        ensures
            state == self@[id as int].state,
    {
        self.threads[id as usize].state
    }

    /// Sets the state of thread `id` and leaves everything else as it is.
    pub fn set_state(&mut self, id: ThreadId, state: ThreadState)
        requires
            (id as int) < old(self)@.len(),
        ensures
            final(self)@ == old(self)@.update(
                id as int,
                (Thread { state, ..old(self)@[id as int] }),
            ),
    {
        self.threads[id as usize].state = state;
    }

    /// Sets the saved stack pointer of thread `id`.
    pub fn set_sp(&mut self, id: ThreadId, sp: usize)
        requires
            (id as int) < old(self)@.len(),
        ensures
            final(self)@ == old(self)@.update(id as int, (Thread { sp, ..old(self)@[id as int] })),
    {
        self.threads[id as usize].sp = sp;
    }

    /// Returns the lowest address of the stack of thread `id` and the
    /// address just above it.
    pub fn stack_limits(&self, id: ThreadId) -> (limits: (usize, usize))
        requires
            (id as int) < self@.len(),
        ensures
            limits == (self@[id as int].stack_lowest, self@[id as int].stack_highest),
    {
        (self.threads[id as usize].stack_lowest, self.threads[id as usize].stack_highest)
    }

    /// Stores `regs` as the saved registers of thread `id`.
    pub fn save_context(&mut self, id: ThreadId, regs: [usize; 8])
        requires
            (id as int) < old(self)@.len(),
        ensures
            final(self)@ == old(self)@.update(
                id as int,
                (Thread { high_regs: regs, ..old(self)@[id as int] }),
            ),
    {
        self.threads[id as usize].high_regs = regs;
    }

    /// Returns the saved registers of thread `id`.
    pub fn restore_context(&self, id: ThreadId) -> (regs: [usize; 8])
        requires
            (id as int) < self@.len(),
        ensures
            regs == self@[id as int].high_regs,
    {
        self.threads[id as usize].high_regs
    }
}

} // verus!
