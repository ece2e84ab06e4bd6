use ariel_os_core::smp::{Chip, CoreId, Cpu, RequestLines};
use ariel_os_core::stack::{stack, CoreStack, Stack, STACK_PAINT};

#[test]
fn painted_stack_usage_scenario() {
    let size = 1024usize;
    let lowest = 0x2000_0000usize;
    let s = Stack::new(lowest, lowest + size);
    let mut mem = vec![0u8; size];
    s.paint(&mut mem, lowest + size);
    assert_eq!(s.peak_usage(&mem), 0);
    // A workload that uses 200 bytes from the top.
    for b in mem[size - 200..].iter_mut() {
        *b = 0x11;
    }
    let sp = lowest + size - 120;
    assert!(s.peak_usage(&mem) <= s.size());
    assert_eq!(s.peak_usage(&mem), 200);
    assert_eq!(s.free_min(&mem), size - 200);
    assert_eq!(s.current_usage(sp) + s.current_free_space(sp), s.size());
    assert_eq!(s.current_usage(sp), 120);
}

#[test]
fn paint_leaves_the_used_part_alone() {
    let s = Stack::new(100, 108);
    let mut mem = vec![1, 2, 3, 4, 5, 6, 7, 8];
    s.paint(&mut mem, 105);
    assert_eq!(mem, vec![STACK_PAINT, STACK_PAINT, STACK_PAINT, STACK_PAINT, STACK_PAINT, 6, 7, 8]);
    assert_eq!(s.peak_usage(&mem), 3);
    assert_eq!(s.limits(), (100, 108));
    assert!(s.contains(100) && s.contains(108) && !s.contains(99) && !s.contains(109));
}

#[test]
fn stack_is_chosen_by_the_stack_pointer() {
    assert_eq!(stack((0x100, 0x200), 0x180, None).limits(), (0x100, 0x200));
    assert_eq!(stack((0x100, 0x200), 0x200, Some((0x300, 0x400))).limits(), (0x100, 0x200));
    assert_eq!(stack((0x100, 0x200), 0x380, Some((0x300, 0x400))).limits(), (0x300, 0x400));
    assert_eq!(CoreStack { base: 0x1000, len: 2048 }.limits(), (0x1000, 0x1800));
}

#[test]
fn core_ids() {
    assert_eq!(CoreId::from(Cpu::ProCpu), CoreId(0));
    assert_eq!(CoreId::from(Cpu::AppCpu), CoreId(1));
    assert_eq!(CoreId(0).other(), CoreId(1));
    assert_eq!(CoreId(1).other(), CoreId(0));
    assert_eq!(Chip::CORES, 2);
    assert_eq!(Chip::IDLE_THREAD_STACK_SIZE, 2048);
}

#[test]
fn pending_request_is_passed_to_the_other_core() {
    let mut lines = RequestLines::new();
    Chip::schedule_on_core(&mut lines, CoreId(1));
    assert!(lines.pending1 && !lines.pending0);
    Chip::schedule_on_core(&mut lines, CoreId(1));
    assert!(lines.pending1 && lines.pending0);
    assert!(lines.take(CoreId(1)));
    assert!(!lines.take(CoreId(1)));
    assert!(lines.is_pending(CoreId(0)));
    Chip::schedule_on_core(&mut lines, CoreId(0));
    assert!(lines.pending1 && lines.pending0);
}

#[test]
fn second_core_asks_itself_and_opens_its_line() {
    let mut lines = RequestLines::new();
    Chip::start_core(&mut lines, CoreId(1));
    assert_eq!(lines, RequestLines { pending0: false, pending1: true, enabled0: false, enabled1: true });
}
