//! Priority run queue: one FIFO of thread ids per priority level and a bitmap
//! of the levels that are not empty.
//!
//! A higher level number means a higher priority. Within one level the ids
//! leave in the order in which they came.

use vstd::prelude::*;

verus! {

/// Identifies a thread: its index in the thread table.
pub type ThreadId = u8;

/// Identifies a priority level. A higher number runs first.
pub type RunqueueId = u8;

/// Largest number of priority levels a run queue can have.
pub const MAX_LEVELS: usize = 32;

/// Whether bit `p` of `bits` is set.
pub open spec fn bit_is_set(bits: u32, p: u32) -> bool {
    (bits >> p) & 1u32 == 1u32
}

/// Whether the bit that stands for level `p` is set in `bits`.
pub open spec fn level_bit(bits: u32, p: int) -> bool {
    bit_is_set(bits, p as u32)
}

/// Whether every level of `q` from `from` upwards is empty.
pub open spec fn empty_from(q: Seq<Seq<ThreadId>>, from: int) -> bool {
    forall|p: int| from <= p < q.len() ==> (#[trigger] q[p]).len() == 0
}

/// The highest level of `q` that holds a thread, if there is one.
pub open spec fn top_level(q: Seq<Seq<ThreadId>>) -> Option<int> {
    if exists|p: int| is_top_level(q, p) {
        Some(choose|p: int| is_top_level(q, p))
    } else {
        None
    }
}

/// Whether `p` is the highest level of `q` that holds a thread.
pub open spec fn is_top_level(q: Seq<Seq<ThreadId>>, p: int) -> bool {
    &&& 0 <= p < q.len()
    &&& q[p].len() > 0
    &&& empty_from(q, p + 1)
}

/// The thread that runs next: the one that waited longest at the highest
/// level that holds a thread.
pub open spec fn next_of(q: Seq<Seq<ThreadId>>) -> Option<ThreadId> {
    match top_level(q) {
        Some(p) => Some(q[p][0]),
        None => None,
    }
}

/// At most one level is the highest that holds a thread.
pub proof fn lemma_top_level_unique(q: Seq<Seq<ThreadId>>, lo: int, hi: int)
    requires
        is_top_level(q, lo),
        is_top_level(q, hi),
    ensures
        lo == hi,
{
    if lo < hi {
        assert(q[hi].len() == 0);
    }
    if hi < lo {
        assert(q[lo].len() == 0);
    }
}

/// Where `p` is the highest level that holds a thread, `top_level` names it.
pub proof fn lemma_top_level_is(q: Seq<Seq<ThreadId>>, p: int)
    requires
        is_top_level(q, p),
    ensures
        top_level(q) == Some(p),
        next_of(q) == Some(q[p][0]),
{
    let c = choose|c: int| is_top_level(q, c);
    lemma_top_level_unique(q, p, c);
}

/// Where every level is empty there is no highest level and nothing runs
/// next.
pub proof fn lemma_top_level_none(q: Seq<Seq<ThreadId>>)
    requires
        empty_from(q, 0),
    ensures
        top_level(q).is_none(),
        next_of(q).is_none(),
{
    if exists|p: int| is_top_level(q, p) {
        let c = choose|c: int| is_top_level(q, c);
        assert(q[c].len() == 0);
    }
}

proof fn lemma_bit_or(b: u32, r: u32, q: u32)
    requires
        r < 32,
        q < 32,
    ensures
        bit_is_set(b | (1u32 << r), q) == (q == r || bit_is_set(b, q)),
{
    assert(bit_is_set(b | (1u32 << r), q) == (q == r || bit_is_set(b, q))) by (bit_vector)
        requires
            q < 32,
            r < 32,
    ;
}

proof fn lemma_bit_clear(b: u32, r: u32, q: u32)
    requires
        r < 32,
        q < 32,
    ensures
        bit_is_set(b & !(1u32 << r), q) == (q != r && bit_is_set(b, q)),
{
    assert(bit_is_set(b & !(1u32 << r), q) == (q != r && bit_is_set(b, q))) by (bit_vector)
        requires
            q < 32,
            r < 32,
    ;
}

proof fn lemma_bit_zero(q: u32)
    requires
        q < 32,
    ensures
        !bit_is_set(0u32, q),
{
    assert(!bit_is_set(0u32, q)) by (bit_vector)
        requires
            q < 32,
    ;
}

/// A run queue over a fixed number of priority levels.
pub struct RunQueue {
    bitcache: u32,
    queues: Vec<Vec<ThreadId>>,
}

impl View for RunQueue {
    type V = Seq<Seq<ThreadId>>;

    /// The FIFO of each level, lowest level first; the head of each FIFO is
    /// at index 0.
    closed spec fn view(&self) -> Seq<Seq<ThreadId>> {
        Seq::new(self.queues@.len(), |p: int| self.queues@[p]@)
    }
}

impl RunQueue {
    /// The number of levels is in range and the bitmap marks exactly the
    /// levels that hold a thread.
    pub closed spec fn wf(&self) -> bool {
        &&& 1 <= self.queues@.len() <= MAX_LEVELS
        &&& forall|p: int|
            0 <= p < 32 ==> (#[trigger] level_bit(self.bitcache, p) <==> (p < self.queues@.len()
                && self.queues@[p]@.len() > 0))
    }

    /// Creates a run queue with `levels` empty priority levels.
    pub fn new(levels: usize) -> (rq: RunQueue)
        requires
            1 <= levels <= MAX_LEVELS,
        ensures
            rq.wf(),
            rq@.len() == levels,
            empty_from(rq@, 0),
    {
        let mut queues: Vec<Vec<ThreadId>> = Vec::new();
        let mut i: usize = 0;
        while i < levels
            invariant
                i <= levels,
                queues@.len() == i,
                forall|p: int| 0 <= p < i ==> (#[trigger] queues@[p])@.len() == 0,
            decreases levels - i,
        {
            queues.push(Vec::new());
            i += 1;
        }
        proof {
            assert forall|p: int| 0 <= p < 32 implies !#[trigger] level_bit(0u32, p) by {
                lemma_bit_zero(p as u32);
            }
        }
        RunQueue { bitcache: 0, queues }
    }

    /// Returns the number of priority levels.
    pub fn n_levels(&self) -> (n: usize)
        requires
            self.wf(),
        ensures
            n == self@.len(),
            1 <= n <= MAX_LEVELS,
    {
        self.queues.len()
    }

    /// Whether no thread is queued at any level.
    pub fn is_empty(&self) -> (empty: bool)
        requires
            self.wf(),
        ensures
            empty <==> empty_from(self@, 0),
    {
        self.get_next().is_none()
    }

    /// Returns the number of threads queued at level `rq`.
    pub fn len_at(&self, rq: RunqueueId) -> (n: usize)
        requires
            self.wf(),
            (rq as int) < self@.len(),
        ensures
            n == self@[rq as int].len(),
    {
        self.queues[rq as usize].len()
    }

    /// Whether `n` is queued at level `rq`.
    pub fn contains(&self, n: ThreadId, rq: RunqueueId) -> (found: bool)
        requires
            self.wf(),
            (rq as int) < self@.len(),
        ensures
            found <==> self@[rq as int].contains(n),
    {
        let queue = &self.queues[rq as usize];
        let mut i: usize = 0;
        while i < queue.len()
            invariant
                i <= queue@.len(),
                queue@ == self@[rq as int],
                forall|j: int| 0 <= j < i ==> queue@[j] != n,
            decreases queue@.len() - i,
        {
            if queue[i] == n {
                return true;
            }
            i += 1;
        }
        false
    }

    /// Appends `n` to the tail of level `rq`.
    pub fn add(&mut self, n: ThreadId, rq: RunqueueId)
        requires
            old(self).wf(),
            (rq as int) < old(self)@.len(),
        ensures
            final(self).wf(),
            final(self)@ == old(self)@.update(rq as int, old(self)@[rq as int].push(n)),
    {
        let ghost before = self.bitcache;
        self.queues[rq as usize].push(n);
        self.bitcache = self.bitcache | (1u32 << (rq as u32));
        proof {
            assert forall|p: int| 0 <= p < 32 implies (#[trigger] level_bit(self.bitcache, p) <==> (
            p < self.queues@.len() && self.queues@[p]@.len() > 0)) by {
                lemma_bit_or(before, rq as u32, p as u32);
                assert(level_bit(before, p) <==> (p < old(self).queues@.len() && old(
                    self,
                ).queues@[p]@.len() > 0));
            }
            assert(self@ =~= old(self)@.update(rq as int, old(self)@[rq as int].push(n)));
        }
    }

    /// Removes the first occurrence of `n` from level `rq`, keeping the
    /// order of the others. Returns whether `n` was queued there.
    pub fn remove(&mut self, n: ThreadId, rq: RunqueueId) -> (found: bool)
        requires
            old(self).wf(),
            (rq as int) < old(self)@.len(),
        ensures
            final(self).wf(),
            found <==> old(self)@[rq as int].contains(n),
            !found ==> final(self)@ == old(self)@,
            found ==> exists|i: int|
                {
                    &&& 0 <= i < old(self)@[rq as int].len()
                    &&& old(self)@[rq as int][i] == n
                    &&& forall|j: int| 0 <= j < i ==> old(self)@[rq as int][j] != n
                    &&& final(self)@ == old(self)@.update(
                        rq as int,
                        old(self)@[rq as int].remove(i),
                    )
                },
    {
        let ghost before = self.bitcache;
        let mut i: usize = 0;
        let len = self.queues[rq as usize].len();
        while i < len
            invariant
                i <= len,
                len == self.queues@[rq as int]@.len(),
                *self == *old(self),
                self.wf(),
                before == self.bitcache,
                (rq as int) < self.queues@.len(),
                forall|j: int| 0 <= j < i ==> self.queues@[rq as int]@[j] != n,
            decreases len - i,
        {
            if self.queues[rq as usize][i] == n {
                self.queues[rq as usize].remove(i);
                if self.queues[rq as usize].len() == 0 {
                    self.bitcache = self.bitcache & !(1u32 << (rq as u32));
                }
                proof {
                    assert forall|p: int| 0 <= p < 32 implies (#[trigger] level_bit(
                        self.bitcache,
                        p,
                    ) <==> (p < self.queues@.len() && self.queues@[p]@.len() > 0)) by {
                        lemma_bit_clear(before, rq as u32, p as u32);
                        assert(level_bit(before, p) <==> (p < old(self).queues@.len() && old(
                            self,
                        ).queues@[p]@.len() > 0));
                    }
                    assert(self@ =~= old(self)@.update(
                        rq as int,
                        old(self)@[rq as int].remove(i as int),
                    ));
                    assert(old(self)@[rq as int][i as int] == n);
                }
                return true;
            }
            i += 1;
        }
        proof {
            assert(self@ =~= old(self)@);
        }
        false
    }

    /// Returns the thread that runs next, without removing it: the head of
    /// the highest level that holds a thread.
    pub fn get_next(&self) -> (next: Option<ThreadId>)
        requires
            self.wf(),
        ensures
            next == next_of(self@),
            next.is_none() <==> empty_from(self@, 0),
            next matches Some(id) ==> exists|p: int|
                is_top_level(self@, p) && self@[p][0] == id,
    {
        let mut p: usize = self.queues.len();
        while p > 0
            invariant
                self.wf(),
                p <= self@.len(),
                empty_from(self@, p as int),
            decreases p,
        {
            p -= 1;
            if (self.bitcache >> (p as u32)) & 1u32 == 1u32 {
                proof {
                    assert(level_bit(self.bitcache, p as int));
                    assert(self@[p as int].len() > 0);
                    assert(is_top_level(self@, p as int));
                    lemma_top_level_is(self@, p as int);
                }
                return Some(self.queues[p][0]);
            }
            proof {
                assert(!level_bit(self.bitcache, p as int));
                assert(self@[p as int].len() == 0);
            }
        }
        proof {
            lemma_top_level_none(self@);
        }
        None
    }

    /// Removes and returns the thread that runs next, with its level.
    pub fn pop_next(&mut self) -> (next: Option<(ThreadId, RunqueueId)>)
        requires
            old(self).wf(),
        ensures
            final(self).wf(),
            next.is_none() <==> empty_from(old(self)@, 0),
            next.is_none() ==> final(self)@ == old(self)@,
            next matches Some((id, rq)) ==> {
                &&& is_top_level(old(self)@, rq as int)
                &&& Some(id) == next_of(old(self)@)
                &&& id == old(self)@[rq as int][0]
                &&& final(self)@ == old(self)@.update(
                    rq as int,
                    old(self)@[rq as int].drop_first(),
                )
            },
    {
        let ghost before = self.bitcache;
        let mut p: usize = self.queues.len();
        while p > 0
            invariant
                self.wf(),
                *self == *old(self),
                before == self.bitcache,
                p <= self@.len(),
                empty_from(self@, p as int),
            decreases p,
        {
            p -= 1;
            if (self.bitcache >> (p as u32)) & 1u32 == 1u32 {
                proof {
                    assert(level_bit(self.bitcache, p as int));
                    assert(self@[p as int].len() > 0);
                    assert(is_top_level(self@, p as int));
                    lemma_top_level_is(self@, p as int);
                }
                let id = self.queues[p].remove(0);
                if self.queues[p].len() == 0 {
                    self.bitcache = self.bitcache & !(1u32 << (p as u32));
                }
                proof {
                    assert forall|l: int| 0 <= l < 32 implies (#[trigger] level_bit(
                        self.bitcache,
                        l,
                    ) <==> (l < self.queues@.len() && self.queues@[l]@.len() > 0)) by {
                        lemma_bit_clear(before, p as u32, l as u32);
                        assert(level_bit(before, l) <==> (l < old(self).queues@.len() && old(
                            self,
                        ).queues@[l]@.len() > 0));
                    }
                    assert(old(self)@[p as int].remove(0) =~= old(self)@[p as int].drop_first());
                    assert(self@ =~= old(self)@.update(
                        p as int,
                        old(self)@[p as int].drop_first(),
                    ));
                }
                return Some((id, p as u8));
            }
            proof {
                assert(!level_bit(self.bitcache, p as int));
                assert(self@[p as int].len() == 0);
            }
        }
        None
    }

    /// Moves the head of level `rq` to its tail, so that the thread after it
    /// runs next among the threads of that level. Does nothing on an empty
    /// level.
    pub fn advance(&mut self, rq: RunqueueId)
        requires
            old(self).wf(),
            (rq as int) < old(self)@.len(),
        ensures
            final(self).wf(),
            old(self)@[rq as int].len() == 0 ==> final(self)@ == old(self)@,
            old(self)@[rq as int].len() > 0 ==> final(self)@ == old(self)@.update(
                rq as int,
                old(self)@[rq as int].drop_first().push(old(self)@[rq as int][0]),
            ),
    {
        if self.queues[rq as usize].len() > 0 {
            let head = self.queues[rq as usize].remove(0);
            self.queues[rq as usize].push(head);
            proof {
                assert(old(self)@[rq as int].remove(0) =~= old(self)@[rq as int].drop_first());
                assert(self@ =~= old(self)@.update(
                    rq as int,
                    old(self)@[rq as int].drop_first().push(old(self)@[rq as int][0]),
                ));
                assert forall|p: int| 0 <= p < 32 implies (#[trigger] level_bit(
                    self.bitcache,
                    p,
                ) <==> (p < self.queues@.len() && self.queues@[p]@.len() > 0)) by {
                    assert(level_bit(old(self).bitcache, p) <==> (p < old(self).queues@.len()
                        && old(self).queues@[p]@.len() > 0));
                }
            }
        } else {
            proof {
                assert(self@ =~= old(self)@);
            }
        }
    }
}

} // verus!
