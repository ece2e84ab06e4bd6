//! The trap layer on a model of the CPU: the deferred trap that hands the
//! CPU from one thread to the next, and the start of threading.
//!
//! Of the CPU the model holds what the handover moves: the process stack
//! pointer and the registers that the trap entry does not push.

use vstd::prelude::*;
use crate::arch::{schedule, Scb};
use crate::sched::{sched_result, trap_result, Decision, SchedView, Scheduler};

verus! {

/// What the trap layer reads and writes of the CPU.
#[derive(Clone, Copy, Debug)]
pub struct Cpu {
    /// The process stack pointer.
    pub psp: usize,
    /// The registers r4 to r11.
    pub high_regs: [usize; 8],
    /// The request line of the deferred trap.
    pub scb: Scb,
    /// Whether interrupts are let through.
    pub interrupts_enabled: bool,
}

/// The CPU after the deferred trap fired on `cpu` with the scheduler in
/// state `v` and decided `d`: on a switch the stack pointer and the
/// registers of the thread that takes over are loaded; otherwise none of
/// them moves. The request for the trap is spent either way.
///
/// The handler masks interrupts while it decides. It leaves with
/// interrupts let through whenever a thread has the CPU afterwards. On
/// `Idle` it leaves the mask as it found it: the caller is still waiting
/// and handles the mask itself.
pub open spec fn cpu_after_trap(cpu: Cpu, v: SchedView, d: Decision) -> Cpu {
    match d {
        Decision::Switch { from, to, next_sp } => Cpu {
            psp: next_sp,
            high_regs: v.threads[to as int].high_regs,
            scb: Scb { pendsv: false },
            interrupts_enabled: true,
        },
        Decision::Keep => Cpu { scb: Scb { pendsv: false }, interrupts_enabled: true, ..cpu },
        Decision::Idle => Cpu { scb: Scb { pendsv: false }, ..cpu },
    }
}

/// The handler of the deferred trap.
///
/// Masks interrupts and asks the scheduler which thread runs next. On a
/// switch it saves the registers of the thread that had the CPU, if there
/// was one, and loads the registers and the stack pointer of the thread
/// that takes over. When the thread that had the CPU keeps it, or when no
/// thread is runnable, no register moves. Where a thread has the CPU
/// afterwards, interrupts are let through again. On `Idle` the mask is as
/// it was at entry: the caller waits for an interrupt and calls again.
pub fn pend_sv(cpu: &mut Cpu, sched: &mut Scheduler) -> (decision: Decision)
    requires
        old(sched).wf(),
    ensures
        final(sched).wf(),
        (final(sched)@, decision) == trap_result(old(sched)@, old(cpu).psp, old(cpu).high_regs),
        *final(cpu) == cpu_after_trap(*old(cpu), old(sched)@, decision),
{
    let enabled_at_entry = cpu.interrupts_enabled;
    cpu.scb.pendsv = false;
    cpu.interrupts_enabled = false;
    let decision = sched.sched(cpu.psp);
    match decision {
        Decision::Switch { from, to, next_sp } => {
            proof {
                old(sched).lemma_wf_inv();
                crate::laws::lemma_sched_inv(old(sched)@, old(cpu).psp);
                crate::laws::lemma_switch_ids(old(sched)@, old(cpu).psp);
                crate::laws::lemma_sched_frame(old(sched)@, old(cpu).psp, to);
            }
            match from {
                Some(c) => {
                    sched.save_context(c, cpu.high_regs);
                },
                None => {},
            }
            cpu.high_regs = sched.restore_context(to);
            cpu.psp = next_sp;
            cpu.interrupts_enabled = true;
        },
        Decision::Keep => {
            cpu.interrupts_enabled = true;
        },
        Decision::Idle => {
            cpu.interrupts_enabled = enabled_at_entry;
        },
    }
    decision
}

/// Starts threading on a CPU that runs no thread yet: requests the deferred
/// trap, points the process stack pointer at `next_sp` and lets interrupts
/// through, so that the trap fires and loads the first thread.
pub fn start_threading(cpu: &mut Cpu, next_sp: usize)
    ensures
        final(cpu).psp == next_sp,
        final(cpu).scb.pendsv,
        final(cpu).interrupts_enabled,
        final(cpu).high_regs == old(cpu).high_regs,
{
    cpu.interrupts_enabled = false;
    schedule(&mut cpu.scb);
    cpu.psp = next_sp;
    cpu.interrupts_enabled = true;
}

} // verus!
