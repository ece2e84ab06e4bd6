//! Stack bounds and stack usage.
//!
//! A stack grows downwards from its highest address. Its unused part is
//! painted with a fixed byte when the thread is created; the painted bytes
//! that are left at the bottom tell how deep the stack ever went.

use vstd::prelude::*;

verus! {

/// The byte that unused stack memory is painted with.
pub const STACK_PAINT: u8 = 0xCC;

/// The bounds of a stack.
#[derive(Clone, Copy, Debug, PartialEq, Eq, Structural)]
pub struct Stack {
    lowest: usize,
    highest: usize,
}

/// Whether the first `n` bytes of `mem` are painted and the next one, if
/// there is one, is not.
pub open spec fn is_painted_prefix(mem: Seq<u8>, n: int) -> bool {
    &&& 0 <= n <= mem.len()
    &&& forall|i: int| 0 <= i < n ==> mem[i] == STACK_PAINT
    &&& n < mem.len() ==> mem[n] != STACK_PAINT
}

/// The number of painted bytes at the bottom of `mem`.
pub open spec fn painted_prefix(mem: Seq<u8>) -> int {
    choose|n: int| is_painted_prefix(mem, n)
}

/// At most one length is that of the painted bottom.
pub proof fn lemma_painted_prefix_unique(mem: Seq<u8>, n: int, m: int)
    requires
        is_painted_prefix(mem, n),
        is_painted_prefix(mem, m),
    ensures
        n == m,
{
    if n < m {
        assert(mem[n] == STACK_PAINT);
    }
    if m < n {
        assert(mem[m] == STACK_PAINT);
    }
}

impl Stack {
    /// The lowest address of the stack.
    pub closed spec fn lowest(self) -> usize {
        self.lowest
    }

    /// The address just above the stack.
    pub closed spec fn highest(self) -> usize {
        self.highest
    }

    /// The bounds are in order.
    pub open spec fn wf(self) -> bool {
        self.lowest() <= self.highest()
    }

    /// Returns the stack from `lowest` up to `highest`.
    pub fn new(lowest: usize, highest: usize) -> (s: Stack)
        requires
            lowest <= highest,
        ensures
            s.wf(),
            s.lowest() == lowest,
            s.highest() == highest,
    {
        Stack { lowest, highest }
    }

    /// Returns the lowest address of the stack and the address just above
    /// it.
    pub fn limits(&self) -> (l: (usize, usize))
        ensures
            l == (self.lowest(), self.highest()),
    {
        (self.lowest, self.highest)
    }

    /// Returns the size of the stack in bytes.
    pub fn size(&self) -> (n: usize)
        requires
            self.wf(),
        ensures
            n == self.highest() - self.lowest(),
    {
        self.highest - self.lowest
    }

    /// Whether the stack pointer `sp` lies within the stack.
    pub fn contains(&self, sp: usize) -> (inside: bool)
        ensures
            inside <==> self.lowest() <= sp <= self.highest(),
    {
        self.lowest <= sp && self.highest >= sp
    }

    /// Returns the number of bytes in use when the stack pointer is `sp`.
    pub fn current_usage(&self, sp: usize) -> (n: usize)
        requires
            self.lowest() <= sp <= self.highest(),
        ensures
            n == self.highest() - sp,
    {
        self.highest - sp
    }

    /// Returns the number of bytes free when the stack pointer is `sp`.
    /// Together with the bytes in use they make up the size of the stack.
    pub fn current_free_space(&self, sp: usize) -> (n: usize)
        requires
            self.lowest() <= sp <= self.highest(),
        ensures
            n == sp - self.lowest(),
            n + (self.highest() - sp) == self.highest() - self.lowest(),
    {
        sp - self.lowest
    }

    /// Paints the part of the stack below the stack pointer `sp`. `mem`
    /// holds the bytes of the stack, lowest address first.
    pub fn paint(&self, mem: &mut Vec<u8>, sp: usize)
        requires
            self.lowest() <= sp <= self.highest(),
            old(mem)@.len() == self.highest() - self.lowest(),
        ensures
            final(mem)@.len() == old(mem)@.len(),
            forall|i: int| 0 <= i < sp - self.lowest() ==> final(mem)@[i] == STACK_PAINT,
            forall|i: int|
                sp - self.lowest() <= i < old(mem)@.len() ==> final(mem)@[i] == old(mem)@[i],
    {
        let n = sp - self.lowest;
        let mut i: usize = 0;
        while i < n
            invariant
                i <= n,
                n <= mem.len(),
                mem@.len() == old(mem)@.len(),
                forall|j: int| 0 <= j < i ==> mem@[j] == STACK_PAINT,
                forall|j: int| i <= j < old(mem)@.len() ==> mem@[j] == old(mem)@[j],
            decreases n - i,
        {
            mem[i] = STACK_PAINT;
            i += 1;
        }
    }

    /// Returns the number of bytes at the bottom of the stack that were
    /// never written since they were painted.
    pub fn free_min(&self, mem: &Vec<u8>) -> (n: usize)
        requires
            mem@.len() == self.highest() - self.lowest(),
        ensures
            is_painted_prefix(mem@, n as int),
            n == painted_prefix(mem@),
    {
        let mut i: usize = 0;
        while i < mem.len() && mem[i] == STACK_PAINT
            invariant
                i <= mem.len(),
                forall|j: int| 0 <= j < i ==> mem@[j] == STACK_PAINT,
            decreases mem.len() - i,
        {
            i += 1;
        }
        proof {
            assert(is_painted_prefix(mem@, i as int));
            lemma_painted_prefix_unique(mem@, i as int, painted_prefix(mem@));
        }
        i
    }

    /// Returns the largest number of bytes that were ever in use: the size
    /// of the stack less the painted bytes left at its bottom. It is never
    /// more than the size of the stack.
    pub fn peak_usage(&self, mem: &Vec<u8>) -> (n: usize)
        requires
            mem@.len() == self.highest() - self.lowest(),
        ensures
            n == mem@.len() - painted_prefix(mem@),
            n <= self.highest() - self.lowest(),
    {
        mem.len() - self.free_min(mem)
    }
}

/// Returns the stack that the stack pointer `sp` is on: the interrupt stack
/// with the bounds `isr_limits` if `sp` lies within it, else the stack of
/// the running thread, whose bounds are `thread_limits`.
pub fn stack(isr_limits: (usize, usize), sp: usize, thread_limits: Option<(usize, usize)>) -> (s:
    Stack)
    requires
        isr_limits.0 <= isr_limits.1,
        !(isr_limits.0 <= sp <= isr_limits.1) ==> (thread_limits matches Some(l) && l.0 <= l.1),
    ensures
        s.wf(),
        isr_limits.0 <= sp <= isr_limits.1 ==> s.lowest() == isr_limits.0 && s.highest()
            == isr_limits.1,
        !(isr_limits.0 <= sp <= isr_limits.1) ==> s.lowest() == thread_limits.unwrap().0
            && s.highest() == thread_limits.unwrap().1,
{
    let (lowest, highest) = isr_limits;
    if !(lowest <= sp && highest >= sp) {
        let l = thread_limits.unwrap();
        Stack::new(l.0, l.1)
    } else {
        Stack::new(lowest, highest)
    }
}

/// A stack given by its first address and its length, as a core is handed
/// one when it starts.
#[derive(Clone, Copy, Debug, PartialEq, Eq, Structural)]
pub struct CoreStack {
    /// The address of the first byte.
    pub base: usize,
    /// The number of bytes.
    pub len: usize,
}

impl CoreStack {
    /// Returns the lowest address of the stack and the address just above
    /// it.
    pub fn limits(&self) -> (l: (usize, usize))
        requires
            self.base + self.len <= usize::MAX,
        ensures
            l == (self.base, (self.base + self.len) as usize),
    {
        let lowest = self.base;
        let highest = lowest + self.len;
        (lowest, highest)
    }
}

} // verus!
