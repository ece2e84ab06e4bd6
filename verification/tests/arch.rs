use ariel_os_core::arch::{read_word, schedule, setup_stack, write_word, Scb, INITIAL_PSR};
use ariel_os_core::kernel;
use ariel_os_core::sched::{Decision, Scheduler};
use ariel_os_core::smp::{CoreId, RequestLines};
use ariel_os_core::threads::{BlockReason, ThreadState};
use ariel_os_core::stack::{Stack, STACK_PAINT};
use ariel_os_core::trap::{pend_sv, start_threading, Cpu};

#[test]
fn setup_stack_writes_the_initial_frame() {
    let mut stack = vec![0xAAu8; 128];
    let start = 0x2000_0004u32;
    let sp = setup_stack(&mut stack, start, 0x0800_1235, 0xDEAD_BEEF, 0x0800_0101);
    assert_eq!(sp, (start + 128 - 36) & 0xFFFF_FFF8);
    assert_eq!(sp, 0x2000_0060);
    assert_eq!(sp % 8, 0);
    let base = (sp - start) as usize;
    let expected = [0xDEAD_BEEFu32, 1, 2, 3, 12, 0x0800_0101, 0x0800_1235, INITIAL_PSR];
    for (i, w) in expected.iter().enumerate() {
        assert_eq!(read_word(&stack, base + 4 * i), *w);
    }
    for (j, b) in stack.iter().enumerate() {
        if j < base || j >= base + 32 {
            assert_eq!(*b, 0xAA);
        }
    }
}

#[test]
fn setup_stack_on_the_smallest_stack() {
    let mut stack = vec![0u8; 43];
    let sp = setup_stack(&mut stack, 0x1007, 7, 8, 9);
    assert_eq!(sp, 0x1008);
    assert_eq!(read_word(&stack, 1), 8);
    assert_eq!(read_word(&stack, 1 + 28), INITIAL_PSR);
}

#[test]
fn words_are_little_endian() {
    let mut mem = vec![0u8; 8];
    write_word(&mut mem, 2, 0x0403_0201);
    assert_eq!(mem, vec![0, 0, 1, 2, 3, 4, 0, 0]);
    assert_eq!(read_word(&mem, 2), 0x0403_0201);
}

#[test]
fn schedule_requests_the_deferred_trap() {
    let mut scb = Scb { pendsv: false };
    schedule(&mut scb);
    assert!(scb.pendsv);
    schedule(&mut scb);
    assert!(scb.pendsv);
}

fn cpu(psp: usize, seed: usize) -> Cpu {
    Cpu {
        psp,
        high_regs: [seed, seed + 1, seed + 2, seed + 3, seed + 4, seed + 5, seed + 6, seed + 7],
        scb: Scb { pendsv: true },
        interrupts_enabled: true,
    }
}

#[test]
fn trap_on_sole_thread_moves_no_register() {
    let mut s = Scheduler::new(4, 4);
    let mut stack = vec![0u8; 64];
    let a = s.create_thread(0x100, 1, &mut stack, 0x2000_0000, 2, 0x200);
    let mut c = cpu(0, 40);
    assert!(matches!(pend_sv(&mut c, &mut s), Decision::Switch { from: None, .. }));
    let before = c;
    c.scb.pendsv = true;
    assert_eq!(pend_sv(&mut c, &mut s), Decision::Keep);
    assert_eq!(c.psp, before.psp);
    assert_eq!(c.high_regs, before.high_regs);
    assert!(!c.scb.pendsv);
    assert_eq!(s.current_id(), Some(a));
}

#[test]
fn yield_and_resume_round_trip() {
    let mut s = Scheduler::new(4, 4);
    let mut stack_a = vec![0u8; 64];
    let mut stack_b = vec![0u8; 64];
    let a = s.create_thread(0x100, 1, &mut stack_a, 0x2000_0000, 1, 0x200);
    let b = s.create_thread(0x300, 2, &mut stack_b, 0x2000_1000, 1, 0x200);
    let mut c = cpu(0, 0);
    assert!(matches!(pend_sv(&mut c, &mut s), Decision::Switch { to, .. } if to == a));
    // Thread a runs: its registers and stack pointer change.
    c.psp = 0x2000_0010;
    c.high_regs = [11, 12, 13, 14, 15, 16, 17, 18];
    assert!(s.yield_now());
    assert!(matches!(pend_sv(&mut c, &mut s), Decision::Switch { from: Some(f), to, .. } if f == a && to == b));
    assert_eq!(s.thread(a).sp, 0x2000_0010);
    assert_eq!(s.restore_context(a), [11, 12, 13, 14, 15, 16, 17, 18]);
    // Thread b runs and changes everything.
    c.psp = 0x2000_1020;
    c.high_regs = [0; 8];
    assert!(s.yield_now());
    assert!(matches!(pend_sv(&mut c, &mut s), Decision::Switch { to, .. } if to == a));
    assert_eq!(c.psp, 0x2000_0010);
    assert_eq!(c.high_regs, [11, 12, 13, 14, 15, 16, 17, 18]);
}

#[test]
fn start_threading_requests_the_first_switch() {
    let mut c = cpu(0, 3);
    c.scb.pendsv = false;
    c.interrupts_enabled = false;
    start_threading(&mut c, 0x2000_0060);
    assert_eq!(c.psp, 0x2000_0060);
    assert!(c.scb.pendsv);
    assert!(c.interrupts_enabled);
    assert_eq!(c.high_regs, [3, 4, 5, 6, 7, 8, 9, 10]);
}

#[test]
fn create_thread_checks() {
    let s = Scheduler::new(1, 2);
    assert!(s.can_create_thread(43, 0x2000_0000, 1));
    assert!(!s.can_create_thread(42, 0x2000_0000, 1));
    assert!(!s.can_create_thread(64, 0x2000_0000, 2));
    assert!(!s.can_create_thread(64, 0xFFFF_FFF0, 1));
}

#[test]
fn thread_stack_is_painted_at_creation() {
    let size = 512usize;
    let start = 0x2000_0000u32;
    let mut sched = Scheduler::new(2, 2);
    let mut mem = vec![0u8; size];
    let id = sched.create_thread(0x101, 0, &mut mem, start, 1, 0x201);
    let sp = sched.thread(id).sp;
    let (lowest, highest) = sched.stack_limits(id);
    assert_eq!((lowest, highest), (start as usize, start as usize + size));
    let stack = Stack::new(lowest, highest);
    assert_eq!(sp, 0x2000_01D8);
    assert!(mem[..sp - lowest].iter().all(|b| *b == STACK_PAINT));
    assert_eq!(stack.peak_usage(&mem), highest - sp);
    // The thread runs and goes 100 bytes deeper, then comes back up.
    for b in mem[sp - lowest - 100..sp - lowest].iter_mut() {
        *b = 0x55;
    }
    let now = sp - 20;
    assert!(size - 64 > highest - sp + 100);
    assert!(stack.peak_usage(&mem) <= stack.size());
    assert_eq!(stack.peak_usage(&mem), highest - sp + 100);
    assert_eq!(stack.current_usage(now) + stack.current_free_space(now), stack.size());
}

#[test]
fn trap_lets_interrupts_through_when_a_thread_has_the_cpu() {
    let mut s = Scheduler::new(4, 4);
    let mut c = cpu(0, 0);
    c.interrupts_enabled = false;
    assert_eq!(pend_sv(&mut c, &mut s), Decision::Idle);
    assert!(!c.interrupts_enabled);
    c.interrupts_enabled = true;
    assert_eq!(pend_sv(&mut c, &mut s), Decision::Idle);
    assert!(c.interrupts_enabled);
    let mut stack = vec![0u8; 64];
    s.create_thread(0x100, 1, &mut stack, 0x2000_0000, 2, 0x200);
    c.interrupts_enabled = false;
    assert!(matches!(pend_sv(&mut c, &mut s), Decision::Switch { .. }));
    assert!(c.interrupts_enabled);
    c.interrupts_enabled = false;
    assert_eq!(pend_sv(&mut c, &mut s), Decision::Keep);
    assert!(c.interrupts_enabled);
}

#[test]
fn a_change_of_runnability_requests_the_trap() {
    let mut s = Scheduler::new(4, 4);
    let mut scb = Scb { pendsv: false };
    let mut stack = vec![0u8; 64];
    let a = kernel::create_thread(&mut s, &mut scb, 0x100, 1, &mut stack, 0x2000_0000, 2, 0x200);
    assert!(scb.pendsv);
    assert_eq!(s.get_state(a), ThreadState::Runnable);
    scb.pendsv = false;
    // Nothing runs yet: yielding, blocking and ending change nothing and request nothing.
    assert!(!kernel::yield_now(&mut s, &mut scb));
    assert!(!kernel::block_current(&mut s, &mut scb, BlockReason::Lock));
    assert!(!kernel::cleanup(&mut s, &mut scb));
    assert!(!kernel::set_runnable(&mut s, &mut scb, a));
    assert!(!scb.pendsv);
    assert!(matches!(s.sched(0), Decision::Switch { .. }));
    assert!(kernel::yield_now(&mut s, &mut scb));
    assert!(scb.pendsv);
    assert_eq!(s.sched(0x10), Decision::Keep);
    scb.pendsv = false;
    assert!(kernel::block_current(&mut s, &mut scb, BlockReason::Channel));
    assert!(scb.pendsv);
    assert_eq!(s.get_state(a), ThreadState::Blocked(BlockReason::Channel));
    scb.pendsv = false;
    assert!(kernel::set_runnable(&mut s, &mut scb, a));
    assert!(scb.pendsv);
    assert_eq!(s.sched(0x10), Decision::Keep);
    scb.pendsv = false;
    assert!(kernel::cleanup(&mut s, &mut scb));
    assert!(scb.pendsv);
    assert_eq!(s.get_state(a), ThreadState::Terminated);
}

#[test]
fn a_change_of_runnability_asks_a_core() {
    let mut s = Scheduler::new(4, 4);
    let mut lines = RequestLines::new();
    let mut stack = vec![0u8; 64];
    let a = kernel::create_thread_on(&mut s, &mut lines, CoreId(0), 0x100, 1, &mut stack, 0x2000_0000, 2, 0x200);
    assert!(lines.pending0 && !lines.pending1);
    assert!(!kernel::yield_now_on(&mut s, &mut lines, CoreId(0)));
    assert!(!lines.pending1);
    assert!(matches!(s.sched(0), Decision::Switch { .. }));
    // Core 0 is still asked: the next request goes to core 1.
    assert!(kernel::block_current_on(&mut s, &mut lines, CoreId(0), BlockReason::Timer));
    assert!(lines.pending0 && lines.pending1);
    assert!(lines.take(CoreId(0)) && lines.take(CoreId(1)));
    assert!(kernel::set_runnable_on(&mut s, &mut lines, CoreId(1), a));
    assert!(!lines.pending0 && lines.pending1);
    assert_eq!(s.sched(0), Decision::Keep);
    assert!(kernel::yield_now_on(&mut s, &mut lines, CoreId(0)));
    assert!(lines.pending0 && lines.pending1);
    assert_eq!(s.sched(0), Decision::Keep);
    assert!(kernel::cleanup_on(&mut s, &mut lines, CoreId(0)));
    assert_eq!(s.get_state(a), ThreadState::Terminated);
}
