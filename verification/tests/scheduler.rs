use ariel_os_core::runqueue::RunQueue;
use ariel_os_core::sched::{Decision, Scheduler};
use ariel_os_core::threads::{BlockReason, ThreadState};

#[test]
fn runqueue_highest_priority_first_then_round_robin() {
    let mut rq = RunQueue::new(8);
    rq.add(0, 1);
    rq.add(1, 1);
    rq.add(2, 2);
    assert_eq!(rq.get_next(), Some(2));
    assert!(rq.remove(2, 2));
    assert_eq!(rq.get_next(), Some(0));
    rq.advance(1);
    assert_eq!(rq.get_next(), Some(1));
    rq.advance(1);
    assert_eq!(rq.get_next(), Some(0));
}

#[test]
fn runqueue_empty_has_no_next() {
    let mut rq = RunQueue::new(1);
    assert!(rq.is_empty());
    assert_eq!(rq.get_next(), None);
    assert_eq!(rq.pop_next(), None);
    rq.advance(0);
    assert!(!rq.remove(3, 0));
    assert!(rq.is_empty());
}

#[test]
fn runqueue_pop_removes_head_of_highest_level() {
    let mut rq = RunQueue::new(32);
    rq.add(7, 0);
    rq.add(9, 31);
    rq.add(4, 31);
    assert_eq!(rq.len_at(31), 2);
    assert_eq!(rq.pop_next(), Some((9, 31)));
    assert_eq!(rq.pop_next(), Some((4, 31)));
    assert_eq!(rq.pop_next(), Some((7, 0)));
    assert_eq!(rq.pop_next(), None);
}

#[test]
fn runqueue_del_keeps_order_of_the_rest() {
    let mut rq = RunQueue::new(4);
    rq.add(1, 3);
    rq.add(2, 3);
    rq.add(3, 3);
    assert!(rq.contains(2, 3));
    assert!(rq.remove(2, 3));
    assert!(!rq.contains(2, 3));
    assert_eq!(rq.pop_next(), Some((1, 3)));
    assert_eq!(rq.pop_next(), Some((3, 3)));
}

#[test]
fn priorities_one_one_two_scenario() {
    let mut s = Scheduler::new(8, 4);
    let a = s.create(1, 0x1000, 0x0800, 0x1020);
    let b = s.create(1, 0x2000, 0x1800, 0x2020);
    let c = s.create(2, 0x3000, 0x2800, 0x3020);
    assert_eq!((a, b, c), (0, 1, 2));
    assert_eq!(s.get_next(), Some(c));
    assert_eq!(s.sched(0), Decision::Switch { from: None, to: c, next_sp: 0x3000 });
    assert_eq!(s.current_id(), Some(c));
    assert_eq!(s.get_state(c), ThreadState::Running);
    assert!(s.block_current(BlockReason::Lock));
    assert_eq!(s.get_next(), Some(a));
    assert_eq!(s.sched(0x2ff0), Decision::Switch { from: Some(c), to: a, next_sp: 0x1000 });
    assert_eq!(s.thread(c).sp, 0x2ff0);
    assert_eq!(s.get_next(), Some(b));
    assert_eq!(s.sched(0x0ff0), Decision::Switch { from: Some(a), to: b, next_sp: 0x2000 });
    assert_eq!(s.get_next(), Some(a));
    assert_eq!(s.sched(0x1ff0), Decision::Switch { from: Some(b), to: a, next_sp: 0x0ff0 });
}

#[test]
fn sole_thread_keeps_the_cpu() {
    let mut s = Scheduler::new(2, 2);
    let a = s.create(1, 0x100, 0x80, 0x120);
    assert_eq!(s.sched(0), Decision::Switch { from: None, to: a, next_sp: 0x100 });
    assert_eq!(s.sched(0xf0), Decision::Keep);
    assert_eq!(s.thread(a).sp, 0x100);
    assert!(s.yield_now());
    assert_eq!(s.sched(0xe0), Decision::Keep);
    assert_eq!(s.get_state(a), ThreadState::Running);
}

#[test]
fn idle_when_nothing_is_runnable_and_wake_up() {
    let mut s = Scheduler::new(2, 2);
    assert_eq!(s.sched(0), Decision::Idle);
    let a = s.create(0, 0x100, 0x80, 0x120);
    assert_eq!(s.sched(0), Decision::Switch { from: None, to: a, next_sp: 0x100 });
    assert!(s.block_current(BlockReason::Timer));
    assert!(!s.block_current(BlockReason::Timer));
    assert_eq!(s.get_state(a), ThreadState::Blocked(BlockReason::Timer));
    assert_eq!(s.sched(0xf0), Decision::Idle);
    assert!(s.set_runnable(a));
    assert!(!s.set_runnable(a));
    assert!(!s.set_runnable(200));
    assert_eq!(s.sched(0xf0), Decision::Keep);
}

#[test]
fn terminated_thread_never_runs_again() {
    let mut s = Scheduler::new(2, 1);
    let a = s.create(0, 0x100, 0x80, 0x120);
    let b = s.create(0, 0x200, 0x180, 0x220);
    assert!(!s.has_free_slot());
    assert_eq!(s.sched(0), Decision::Switch { from: None, to: a, next_sp: 0x100 });
    assert!(s.cleanup());
    assert_eq!(s.get_state(a), ThreadState::Terminated);
    assert!(!s.set_runnable(a));
    assert_eq!(s.sched(0xf0), Decision::Switch { from: Some(a), to: b, next_sp: 0x200 });
    assert_eq!(s.sched(0x1f0), Decision::Keep);
    assert_eq!(s.stack_limits(b), (0x180, 0x220));
}

#[test]
fn equal_priority_threads_all_run_within_n_rounds() {
    let n: u8 = 5;
    let mut s = Scheduler::new(8, 3);
    for i in 0..n {
        s.create(1, 0x100 * (i as usize + 1), 0, 0);
    }
    let mut seen = vec![false; n as usize];
    for _ in 0..n {
        s.yield_now();
        match s.sched(0) {
            Decision::Switch { to, .. } => seen[to as usize] = true,
            Decision::Keep => panic!("a waiting thread of equal priority was passed over"),
            Decision::Idle => panic!("runnable threads were ignored"),
        }
    }
    assert!(seen.iter().all(|x| *x));
}
