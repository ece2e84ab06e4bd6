//! The part of the Cortex-M layer that can be stated on plain values: the
//! frame that a new thread starts from, and the request for the deferred
//! trap.
//!
//! A stack is a buffer of bytes whose first byte lies at a known address.
//! Words are four bytes, lowest byte first.

use vstd::prelude::*;
use vstd::bytes::{
    lemma_auto_spec_u32_to_from_le_bytes, spec_u32_from_le_bytes, u32_from_le_bytes,
    u32_to_le_bytes,
};
use vstd::slice::slice_subrange;

verus! {

/// Number of words that the trap entry pushes.
pub const FRAME_WORDS: usize = 8;

/// Bytes kept free above the frame for the registers that the trap entry
/// does not push and for the stack pointer.
pub const CONTEXT_RESERVE: u32 = 36;

/// The smallest stack that can hold the initial frame wherever it starts.
pub const MIN_STACK_SIZE: usize = 43;

/// The program status word of a new thread: only the Thumb bit is set.
pub const INITIAL_PSR: u32 = 0x0100_0000;

/// The word that the bytes of `s` from `off` on spell.
pub open spec fn word_at(s: Seq<u8>, off: int) -> u32 {
    spec_u32_from_le_bytes(s.subrange(off, off + 4))
}

/// The stack pointer of a new thread whose stack of `len` bytes starts at
/// `start`: the highest address that leaves `CONTEXT_RESERVE` bytes above it
/// and is a multiple of 8.
pub open spec fn initial_sp(start: u32, len: nat) -> u32 {
    ((start + len - 36) as u32) & 0xFFFF_FFF8u32
}

/// The word `i` of the initial frame, counted from the stack pointer up:
/// the registers r0 to r3 and r12, the link register, the program counter
/// and the program status word.
pub open spec fn frame_word(i: int, func: u32, arg: u32, cleanup: u32) -> u32 {
    if i == 0 {
        arg
    } else if i == 1 {
        1
    } else if i == 2 {
        2
    } else if i == 3 {
        3
    } else if i == 4 {
        12
    } else if i == 5 {
        cleanup
    } else if i == 6 {
        func
    } else {
        INITIAL_PSR
    }
}

/// Rounding down to a multiple of 8 takes off less than 8.
pub proof fn lemma_align_down(x: u32)
    ensures
        (x & 0xFFFF_FFF8u32) <= x,
        x - (x & 0xFFFF_FFF8u32) <= 7,
        (x & 0xFFFF_FFF8u32) % 8 == 0,
{
    assert((x & 0xFFFF_FFF8u32) <= x) by (bit_vector);
    assert(x - (x & 0xFFFF_FFF8u32) <= 7) by (bit_vector);
    assert((x & 0xFFFF_FFF8u32) % 8 == 0) by (bit_vector);
}

/// Writes `w` into the four bytes of `stack` from `off` on, lowest byte
/// first.
pub fn write_word(stack: &mut Vec<u8>, off: usize, w: u32)
    requires
        off + 4 <= old(stack)@.len(),
    ensures
        final(stack)@.len() == old(stack)@.len(),
        word_at(final(stack)@, off as int) == w,
        forall|j: int|
            0 <= j < old(stack)@.len() && !(off <= j < off + 4) ==> final(stack)@[j] == old(
                stack,
            )@[j],
{
    let bytes = u32_to_le_bytes(w);
    let mut i: usize = 0;
    while i < 4
        invariant
            i <= 4,
            bytes@.len() == 4,
            off + 4 <= stack.len(),
            stack@.len() == old(stack)@.len(),
            forall|j: int| off <= j < off + i ==> stack@[j] == bytes@[j - off],
            forall|j: int|
                0 <= j < old(stack)@.len() && !(off <= j < off + 4) ==> stack@[j] == old(
                    stack,
                )@[j],
        decreases 4 - i,
    {
        stack[off + i] = bytes[i];
        i += 1;
    }
    proof {
        lemma_auto_spec_u32_to_from_le_bytes();
        assert(stack@.subrange(off as int, off + 4) =~= bytes@);
    }
}

/// Reads the word that the four bytes of `stack` from `off` on spell.
pub fn read_word(stack: &Vec<u8>, off: usize) -> (w: u32)
    requires
        off + 4 <= stack@.len(),
    ensures
        w == word_at(stack@, off as int),
{
    let len = stack.len();
    u32_from_le_bytes(slice_subrange(stack.as_slice(), off, off + 4))
}

/// The word at `off` depends on the four bytes from `off` on only.
pub proof fn lemma_word_at_same(a: Seq<u8>, b: Seq<u8>, off: int)
    requires
        0 <= off,
        off + 4 <= a.len(),
        a.len() == b.len(),
        forall|j: int| off <= j < off + 4 ==> a[j] == b[j],
    ensures
        word_at(a, off) == word_at(b, off),
{
    assert(a.subrange(off, off + 4) =~= b.subrange(off, off + 4));
}

/// Sets up the stack of a new thread and returns its stack pointer.
///
/// `stack` is the stack and `stack_start` the address of its first byte.
/// Afterwards the stack looks as if the thread had been interrupted just
/// before the first instruction of `func`, with `arg` as its argument and
/// `cleanup` as the address it returns to.
pub fn setup_stack(stack: &mut Vec<u8>, stack_start: u32, func: u32, arg: u32, cleanup: u32) -> (sp:
    u32)
    requires
        old(stack)@.len() >= MIN_STACK_SIZE,
        stack_start + old(stack)@.len() <= u32::MAX,
    ensures
        final(stack)@.len() == old(stack)@.len(),
        sp == initial_sp(stack_start, old(stack)@.len()),
        sp % 8 == 0,
        stack_start <= sp,
        sp + 36 <= stack_start + old(stack)@.len(),
        stack_start + old(stack)@.len() - sp < 44,
        forall|i: int|
            0 <= i < 8 ==> #[trigger] word_at(final(stack)@, sp - stack_start + 4 * i)
                == frame_word(i, func, arg, cleanup),
        forall|j: int|
            0 <= j < old(stack)@.len() && !(sp - stack_start <= j < sp - stack_start + 32)
                ==> final(stack)@[j] == old(stack)@[j],
{
    let len = stack.len();
    let top: u32 = stack_start + (len as u32) - CONTEXT_RESERVE;
    let sp: u32 = top & 0xFFFF_FFF8u32;
    proof {
        lemma_align_down(top);
    }
    let base: usize = (sp - stack_start) as usize;
    let words: [u32; 8] = [arg, 1, 2, 3, 12, cleanup, func, INITIAL_PSR];
    let mut i: usize = 0;
    while i < FRAME_WORDS
        invariant
            i <= FRAME_WORDS,
            stack@.len() == old(stack)@.len(),
            len == stack.len(),
            base + 36 <= len,
            forall|k: int| 0 <= k < 8 ==> words@[k] == frame_word(k, func, arg, cleanup),
            forall|k: int| 0 <= k < i ==> #[trigger] word_at(stack@, base + 4 * k) == words@[k],
            forall|j: int|
                0 <= j < old(stack)@.len() && !(base <= j < base + 32) ==> stack@[j] == old(
                    stack,
                )@[j],
        decreases FRAME_WORDS - i,
    {
        let ghost before = stack@;
        write_word(stack, base + 4 * i, words[i]);
        proof {
            assert forall|k: int| 0 <= k < i + 1 implies #[trigger] word_at(stack@, base + 4 * k)
                == words@[k] by {
                if k < i {
                    lemma_word_at_same(stack@, before, base + 4 * k);
                    assert(word_at(before, base + 4 * k) == words@[k]);
                }
            }
        }
        i += 1;
    }
    sp
}

/// The part of the system control block that requests the deferred trap.
#[derive(Clone, Copy, Debug, PartialEq, Eq, Structural)]
pub struct Scb {
    /// Whether the deferred trap is requested and has not fired yet.
    pub pendsv: bool,
}

/// Requests the deferred trap, which runs the scheduler once no interrupt
/// of a higher priority is left to serve.
pub fn schedule(scb: &mut Scb)
    ensures
        final(scb).pendsv,
{
    scb.pendsv = true;
}

} // verus!
