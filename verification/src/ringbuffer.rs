//! Typed FIFO ring buffer supporting single element put, get and peek.
//!
//! The buffer can be made without backing storage; it then holds nothing
//! until it is given some. The positions in the backing storage are kept by
//! an index queue of the crate `rbi`.

use vstd::prelude::*;
use rbi::RingBufferIndex;

verus! {

/// The index queue of the crate `rbi`: a read counter, a write counter and
/// a mask, none of which can be read from outside.
#[verifier::external_type_specification]
#[verifier::external_body]
pub struct ExRingBufferIndex(RingBufferIndex);

/// The number of indexes that were ever taken out of `index`, modulo 256.
pub uninterp spec fn rbi_reads(index: RingBufferIndex) -> u8;

/// The number of indexes that were ever put into `index`, modulo 256.
pub uninterp spec fn rbi_writes(index: RingBufferIndex) -> u8;

/// The mask that turns a counter of `index` into a position: one less than
/// the number of positions.
pub uninterp spec fn rbi_mask(index: RingBufferIndex) -> u8;

/// The largest power of two that is not above `size`, and 1 for 0.
pub open spec fn floor_pow2(size: u8) -> u8 {
    if size >= 128 {
        128
    } else if size >= 64 {
        64
    } else if size >= 32 {
        32
    } else if size >= 16 {
        16
    } else if size >= 8 {
        8
    } else if size >= 4 {
        4
    } else if size >= 2 {
        2
    } else {
        1
    }
}

/// The number of elements that an index queue with mask `mask` keeps track
/// of: none if the mask is 0.
pub open spec fn capacity_of(mask: u8) -> int {
    if mask > 0 {
        mask + 1
    } else {
        0
    }
}

/// The number of elements that a buffer with backing storage for `len`
/// elements holds: the largest power of two that is not above `len`, but
/// no more than 128, and none where `len` is below 2.
pub open spec fn capacity_for(len: nat) -> int {
    capacity_of(
        (floor_pow2(
            if len > 255 {
                255u8
            } else {
                len as u8
            },
        ) - 1) as u8,
    )
}

/// `RingBufferIndex::new`: both counters start at 0, and the mask is one
/// less than the largest power of two that is not above `size`.
pub assume_specification[ RingBufferIndex::new ](size: u8) -> (index: RingBufferIndex)
    ensures
        rbi_reads(index) == 0,
        rbi_writes(index) == 0,
        rbi_mask(index) == floor_pow2(size) - 1,
;

/// `RingBufferIndex::available`: the write counter less the read counter.
/// The subtraction overflows if the write counter is the smaller one.
pub assume_specification[ RingBufferIndex::available ](index: &RingBufferIndex) -> (n: u8)
    requires
        rbi_reads(*index) <= rbi_writes(*index),
    ensures
        n == rbi_writes(*index) - rbi_reads(*index),
;

/// `RingBufferIndex::is_empty`: whether the two counters are equal.
pub assume_specification[ RingBufferIndex::is_empty ](index: &RingBufferIndex) -> (e: bool)
    ensures
        e <==> rbi_writes(*index) == rbi_reads(*index),
;

/// `RingBufferIndex::is_full`: whether the mask is 0 or more indexes are
/// in use than the mask says. With a mask other than 0 it calls
/// `available`.
pub assume_specification[ RingBufferIndex::is_full ](index: &RingBufferIndex) -> (f: bool)
    requires
        rbi_mask(*index) == 0 || rbi_reads(*index) <= rbi_writes(*index),
    ensures
        f <==> (rbi_mask(*index) == 0 || rbi_writes(*index) - rbi_reads(*index) > rbi_mask(
            *index,
        )),
;

/// `RingBufferIndex::get`: if the counters differ, the read counter under
/// the mask is returned and the read counter goes up by one, wrapping.
pub assume_specification[ RingBufferIndex::get ](index: &mut RingBufferIndex) -> (r: Option<u8>)
    ensures
        rbi_mask(*final(index)) == rbi_mask(*old(index)),
        rbi_writes(*final(index)) == rbi_writes(*old(index)),
        rbi_reads(*old(index)) == rbi_writes(*old(index)) ==> r.is_none() && rbi_reads(
            *final(index),
        ) == rbi_reads(*old(index)),
        rbi_reads(*old(index)) != rbi_writes(*old(index)) ==> r == Some(
            rbi_reads(*old(index)) & rbi_mask(*old(index)),
        ) && rbi_reads(*final(index)) as int == (rbi_reads(*old(index)) + 1) % 256,
;

/// `RingBufferIndex::peek`: if the counters differ, the read counter under
/// the mask.
pub assume_specification[ RingBufferIndex::peek ](index: &RingBufferIndex) -> (r: Option<u8>)
    ensures
        rbi_reads(*index) == rbi_writes(*index) ==> r.is_none(),
        rbi_reads(*index) != rbi_writes(*index) ==> r == Some(
            rbi_reads(*index) & rbi_mask(*index),
        ),
;

/// `RingBufferIndex::put`: unless the queue is full, the write counter
/// under the mask is returned and the write counter goes up by one,
/// wrapping. It calls `is_full`.
pub assume_specification[ RingBufferIndex::put ](index: &mut RingBufferIndex) -> (r: Option<u8>)
    requires
        rbi_mask(*old(index)) == 0 || rbi_reads(*old(index)) <= rbi_writes(*old(index)),
    ensures
        rbi_mask(*final(index)) == rbi_mask(*old(index)),
        rbi_reads(*final(index)) == rbi_reads(*old(index)),
        (rbi_mask(*old(index)) == 0 || rbi_writes(*old(index)) - rbi_reads(*old(index))
            > rbi_mask(*old(index))) ==> r.is_none() && rbi_writes(*final(index)) == rbi_writes(
            *old(index),
        ),
        !(rbi_mask(*old(index)) == 0 || rbi_writes(*old(index)) - rbi_reads(*old(index))
            > rbi_mask(*old(index))) ==> r == Some(
            rbi_writes(*old(index)) & rbi_mask(*old(index)),
        ) && rbi_writes(*final(index)) as int == (rbi_writes(*old(index)) + 1) % 256,
;

/// `RingBufferIndex::capacity`: one more than the mask, or 0 if the mask
/// is 0.
pub assume_specification[ RingBufferIndex::capacity ](index: &RingBufferIndex) -> (c: usize)
    ensures
        c == capacity_of(rbi_mask(*index)),
;

/// The position in the backing storage of the element that is `i` steps
/// behind the head, for a read counter `reads` and a mask `mask`.
pub open spec fn position(reads: u8, i: int, mask: u8) -> int {
    (((reads + i) as u8) & mask) as int
}

/// Whether `mask` is one less than a power of two up to 128.
pub open spec fn is_mask(mask: u8) -> bool {
    mask == 0 || mask == 1 || mask == 3 || mask == 7 || mask == 15 || mask == 31 || mask == 63
        || mask == 127
}

/// Under a mask, counters that differ by no more than the mask fall on
/// different positions.
pub proof fn lemma_positions(x: u8, y: u8, mask: u8)
    requires
        is_mask(mask),
        x < y,
        y - x <= mask,
    ensures
        (x & mask) != (y & mask),
{
    assert((x & mask) != (y & mask)) by (bit_vector)
        requires
            mask == 0 || mask == 1 || mask == 3 || mask == 7 || mask == 15 || mask == 31 || mask
                == 63 || mask == 127,
            x < y,
            y - x <= mask,
    ;
}

/// Every position is within the mask.
pub proof fn lemma_position_bound(x: u8, mask: u8)
    ensures
        (x & mask) <= mask,
{
    assert((x & mask) <= mask) by (bit_vector);
}

/// Typed FIFO ring buffer.
pub struct RingBuffer<T: Copy> {
    index: RingBufferIndex,
    slots: Vec<Option<T>>,
    size: u8,
    writes: u8,
}

impl<T: Copy> View for RingBuffer<T> {
    type V = Seq<T>;

    /// The elements in the buffer, the one that leaves next first.
    closed spec fn view(&self) -> Seq<T> {
        Seq::new(
            (rbi_writes(self.index) - rbi_reads(self.index)) as nat,
            |i: int| self.slots@[position(rbi_reads(self.index), i, rbi_mask(self.index))].unwrap(),
        )
    }
}

impl<T: Copy> RingBuffer<T> {
    /// The length that the index queue was made for.
    pub closed spec fn spec_size(&self) -> u8 {
        self.size
    }

    /// The number of elements that the buffer can hold.
    pub closed spec fn spec_capacity(&self) -> int {
        capacity_of(rbi_mask(self.index))
    }

    /// The counters are in order and count what the backing storage
    /// holds.
    pub closed spec fn wf(&self) -> bool {
        &&& rbi_reads(self.index) <= rbi_writes(self.index)
        &&& rbi_writes(self.index) - rbi_reads(self.index) <= capacity_of(rbi_mask(self.index))
        &&& rbi_mask(self.index) == floor_pow2(self.size) - 1
        &&& self.writes == rbi_writes(self.index)
        &&& self.slots@.len() >= self.size
        &&& forall|i: int|
            0 <= i < rbi_writes(self.index) - rbi_reads(self.index) ==> (
            #[trigger] self.slots@[position(rbi_reads(self.index), i, rbi_mask(self.index))]).is_some()
    }

    /// A well-formed buffer holds no more than its capacity, which is 0 or
    /// a power of two up to 128.
    pub proof fn lemma_bounds(&self)
        requires
            self.wf(),
        ensures
            self@.len() <= self.spec_capacity(),
            0 <= self.spec_capacity() <= 128,
    {
    }

    /// Returns a buffer without backing storage, which holds nothing.
    pub fn new() -> (rb: RingBuffer<T>)
        ensures
            rb.wf(),
            rb@.len() == 0,
            rb.spec_capacity() == 0,
    {
        RingBuffer { index: RingBufferIndex::new(0), slots: Vec::new(), size: 0, writes: 0 }
    }

    /// Returns an empty buffer with backing storage for `len` elements. It
    /// holds `capacity_for(len)` elements.
    pub fn new_with(len: usize) -> (rb: RingBuffer<T>)
        ensures
            rb.wf(),
            rb@.len() == 0,
            rb.spec_capacity() == capacity_for(len as nat),
    {
        let mut rb = Self::new();
        rb.set_backing_array(Some(len));
        rb
    }

    /// Gives the buffer backing storage for `len` elements, or none. The
    /// buffer is empty afterwards and holds `capacity_for(len)` elements.
    /// Of storage for more than 255 elements the first 255 are used.
    pub fn set_backing_array(&mut self, len: Option<usize>)
        ensures
            final(self).wf(),
            final(self)@.len() == 0,
            final(self).spec_capacity() == capacity_for(
                match len {
                    Some(l) => l as nat,
                    None => 0,
                },
            ),
    {
        let len = match len {
            Some(l) => l,
            None => 0,
        };
        let size: u8 = if len > 255 {
            255
        } else {
            len as u8
        };
        let mut slots: Vec<Option<T>> = Vec::new();
        let mut i: u8 = 0;
        while i < size
            invariant
                i <= size,
                slots@.len() == i,
            decreases size - i,
        {
            slots.push(None);
            i += 1;
        }
        self.slots = slots;
        self.size = size;
        self.writes = 0;
        self.index = RingBufferIndex::new(size);
    }

    /// Returns the number of elements in the buffer.
    pub fn available(&self) -> (n: usize)
        requires
            self.wf(),
        ensures
            n == self@.len(),
    {
        self.index.available() as usize
    }

    /// Returns the number of elements that the buffer can hold.
    pub fn capacity(&self) -> (n: usize)
        ensures
            n == self.spec_capacity(),
    {
        self.index.capacity()
    }

    /// Whether the buffer can take no further element.
    pub fn is_full(&self) -> (f: bool)
        requires
            self.wf(),
        ensures
            f <==> self@.len() >= self.spec_capacity(),
    {
        self.index.is_full()
    }

    /// Whether the buffer holds nothing.
    pub fn is_empty(&self) -> (e: bool)
        requires
            self.wf(),
        ensures
            e <==> self@.len() == 0,
    {
        self.index.is_empty()
    }

    /// Returns the element that leaves next, if there is one, and leaves it
    /// in the buffer.
    pub fn peek(&self) -> (r: Option<T>)
        requires
            self.wf(),
        ensures
            self@.len() == 0 ==> r.is_none(),
            self@.len() > 0 ==> r == Some(self@[0]),
    {
        if let Some(pos) = self.index.peek() {
            proof {
                lemma_position_bound(rbi_reads(self.index), rbi_mask(self.index));
                assert(self.slots@[position(rbi_reads(self.index), 0, rbi_mask(self.index))].is_some());
            }
            self.get_pos(pos as usize)
        } else {
            None
        }
    }

    /// Takes the element that leaves next out of the buffer, if there is
    /// one.
    pub fn get(&mut self) -> (r: Option<T>)
        requires
            old(self).wf(),
        ensures
            final(self).wf(),
            final(self).spec_capacity() == old(self).spec_capacity(),
            final(self).spec_size() == old(self).spec_size(),
            old(self)@.len() == 0 ==> r.is_none() && final(self)@ == old(self)@,
            old(self)@.len() > 0 ==> r == Some(old(self)@[0]) && final(self)@ == old(
                self,
            )@.drop_first(),
    {
        let ghost reads = rbi_reads(self.index);
        let ghost mask = rbi_mask(self.index);
        if let Some(pos) = self.index.get() {
            proof {
                lemma_position_bound(reads, mask);
                assert(old(self).slots@[position(reads, 0, mask)].is_some());
                assert forall|i: int|
                    0 <= i < rbi_writes(self.index) - rbi_reads(self.index) implies position(
                    rbi_reads(self.index),
                    i,
                    mask,
                ) == position(reads, i + 1, mask) by {}
                assert forall|i: int|
                    0 <= i < rbi_writes(self.index) - rbi_reads(self.index) implies (
                #[trigger] self.slots@[position(rbi_reads(self.index), i, mask)]).is_some() by {
                    assert(old(self).slots@[position(reads, i + 1, mask)].is_some());
                }
                assert(self@ =~= old(self)@.drop_first());
            }
            self.get_pos(pos as usize)
        } else {
            proof {
                assert(self@ =~= old(self)@);
            }
            None
        }
    }

    fn get_pos(&self, pos: usize) -> (r: Option<T>)
        requires
            pos < self.slots@.len(),
        ensures
            r == self.slots@[pos as int],
    {
        self.slots[pos]
    }

    /// Puts `element` into the buffer unless the buffer is full. Returns
    /// whether it did.
    pub fn put(&mut self, element: T) -> (done: bool)
        requires
            old(self).wf(),
        ensures
            final(self).wf(),
            final(self).spec_capacity() == old(self).spec_capacity(),
            done <==> old(self)@.len() < old(self).spec_capacity(),
            done ==> final(self)@ == old(self)@.push(element),
            !done ==> final(self)@ == old(self)@,
    {
        if self.writes == 255 {
            self.rebase();
        }
        self.raw_put(element)
    }

    fn raw_put(&mut self, element: T) -> (done: bool)
        requires
            old(self).wf(),
            old(self).writes < 255,
        ensures
            final(self).wf(),
            final(self).spec_capacity() == old(self).spec_capacity(),
            final(self).size == old(self).size,
            done <==> old(self)@.len() < old(self).spec_capacity(),
            done ==> final(self)@ == old(self)@.push(element),
            done ==> final(self).writes == old(self).writes + 1,
            !done ==> final(self)@ == old(self)@,
    {
        let ghost reads = rbi_reads(self.index);
        let ghost mask = rbi_mask(self.index);
        let ghost count = rbi_writes(self.index) - rbi_reads(self.index);
        if let Some(pos) = self.index.put() {
            proof {
                lemma_position_bound(rbi_writes(old(self).index), mask);
                assert(pos as int == position(reads, count, mask));
            }
            self.slots[pos as usize] = Some(element);
            self.writes = self.writes + 1;
            proof {
                assert forall|i: int| 0 <= i < count implies position(reads, i, mask)
                    != pos as int by {
                    lemma_positions((reads + i) as u8, (reads + count) as u8, mask);
                }
                assert forall|i: int| 0 <= i < count + 1 implies (#[trigger] self.slots@[position(
                    reads,
                    i,
                    mask,
                )]).is_some() by {
                    lemma_position_bound((reads + i) as u8, mask);
                    if i < count {
                        assert(position(reads, i, mask) != pos as int);
                        assert(old(self).slots@[position(reads, i, mask)].is_some());
                    }
                }
                assert(self@.len() == count + 1);
                assert forall|i: int| 0 <= i < count + 1 implies self@[i] == old(self)@.push(
                    element,
                )[i] by {
                    lemma_position_bound((reads + i) as u8, mask);
                    if i < count {
                        assert(position(reads, i, mask) != pos as int);
                        assert(self.slots@[position(reads, i, mask)] == old(self).slots@[position(reads, i, mask)]);
                    } else {
                        assert(self.slots@[pos as int] == Some(element));
                    }
                }
                assert(self@ =~= old(self)@.push(element));
            }
            true
        } else {
            proof {
                assert(self@ =~= old(self)@);
            }
            false
        }
    }

    /// Starts the counters of the index queue afresh and keeps what the
    /// buffer holds, in order.
    fn rebase(&mut self)
        requires
            old(self).wf(),
        ensures
            final(self).wf(),
            final(self)@ == old(self)@,
            final(self).spec_capacity() == old(self).spec_capacity(),
            final(self).writes <= 128,
    {
        let mut items: Vec<T> = Vec::new();
        loop
            invariant
                self.wf(),
                self.spec_capacity() == old(self).spec_capacity(),
                self.size == old(self).size,
                items@ + self@ == old(self)@,
            ensures
                self.wf(),
                self.spec_capacity() == old(self).spec_capacity(),
                self.size == old(self).size,
                items@ == old(self)@,
                self@.len() == 0,
            decreases self@.len(),
        {
            let ghost before = self@;
            match self.get() {
                Some(x) => {
                    items.push(x);
                    proof {
                        assert(items@ + self@ =~= (items@.drop_last() + before));
                    }
                },
                None => {
                    proof {
                        assert(items@ + self@ =~= items@);
                    }
                    break ;
                },
            }
        }
        proof {
            old(self).lemma_bounds();
        }
        self.index = RingBufferIndex::new(self.size);
        self.writes = 0;
        let mut i: usize = 0;
        while i < items.len()
            invariant
                self.wf(),
                i <= items@.len(),
                items@ == old(self)@,
                items@.len() <= self.spec_capacity(),
                self.spec_capacity() == old(self).spec_capacity(),
                self.spec_capacity() <= 128,
                self@ == items@.subrange(0, i as int),
                self.writes == i,
            decreases items@.len() - i,
        {
            let done = self.raw_put(items[i]);
            proof {
                assert(done);
                assert(items@.subrange(0, i as int).push(items@[i as int]) =~= items@.subrange(
                    0,
                    i + 1,
                ));
            }
            i += 1;
        }
        proof {
            assert(items@.subrange(0, items@.len() as int) =~= items@);
        }
    }
}

} // verus!
