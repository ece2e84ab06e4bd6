//! Multicore coordination on a chip with two cores: which core is told to
//! run the scheduler when the run queue changed.
//!
//! Each core has a request line of its own for the scheduler. A request
//! that finds the line of its target already raised is passed on to the
//! other core instead of being merged into the one that is pending.

use vstd::prelude::*;

verus! {

/// Identifies a core.
#[derive(Clone, Copy, Debug, PartialEq, Eq, Structural)]
pub struct CoreId(pub u8);

/// The two cores of the chip, as the hardware layer names them.
#[derive(Clone, Copy, Debug, PartialEq, Eq, Structural)]
pub enum Cpu {
    /// The core that starts first.
    ProCpu,
    /// The second core.
    AppCpu,
}

impl CoreId {
    /// The id of core `cpu`: 0 for the first core, 1 for the second.
    pub open spec fn of(cpu: Cpu) -> CoreId {
        match cpu {
            Cpu::ProCpu => CoreId(0),
            Cpu::AppCpu => CoreId(1),
        }
    }

    /// The other core of the two.
    pub open spec fn spec_other(self) -> CoreId {
        CoreId(self.0 ^ 1)
    }

    /// Returns the other core of the two.
    pub fn other(self) -> (o: CoreId)
        requires
            self.0 < 2,
        ensures
            o == self.spec_other(),
            o.0 < 2,
            o.0 != self.0,
            o.0 == 1 - self.0,
    {
        let id = self.0;
        assert(id < 2 ==> (id ^ 1) < 2 && (id ^ 1) != id && (id ^ 1) == 1 - id) by (bit_vector);
        CoreId(id ^ 1)
    }
}

impl From<Cpu> for CoreId {
    fn from(value: Cpu) -> (id: CoreId) {
        match value {
            Cpu::ProCpu => CoreId(0),
            Cpu::AppCpu => CoreId(1),
        }
    }
}

impl vstd::std_specs::convert::FromSpecImpl<Cpu> for CoreId {
    open spec fn obeys_from_spec() -> bool {
        true
    }

    open spec fn from_spec(value: Cpu) -> CoreId {
        CoreId::of(value)
    }
}

/// The scheduler request lines of the two cores.
#[derive(Clone, Copy, Debug, PartialEq, Eq, Structural)]
pub struct RequestLines {
    /// Whether a request to core 0 is raised and not yet served.
    pub pending0: bool,
    /// Whether a request to core 1 is raised and not yet served.
    pub pending1: bool,
    /// Whether core 0 lets its request line through.
    pub enabled0: bool,
    /// Whether core 1 lets its request line through.
    pub enabled1: bool,
}

impl RequestLines {
    /// Whether a request to core `id` is pending.
    pub open spec fn pending(self, id: CoreId) -> bool {
        if id.0 == 0 {
            self.pending0
        } else {
            self.pending1
        }
    }

    /// Whether core `id` lets its request line through.
    pub open spec fn enabled(self, id: CoreId) -> bool {
        if id.0 == 0 {
            self.enabled0
        } else {
            self.enabled1
        }
    }

    /// These lines with a request raised to core `id`.
    pub open spec fn raised(self, id: CoreId) -> RequestLines {
        if id.0 == 0 {
            RequestLines { pending0: true, ..self }
        } else {
            RequestLines { pending1: true, ..self }
        }
    }

    /// These lines with the request to core `id` served.
    pub open spec fn served(self, id: CoreId) -> RequestLines {
        if id.0 == 0 {
            RequestLines { pending0: false, ..self }
        } else {
            RequestLines { pending1: false, ..self }
        }
    }

    /// These lines with the line of core `id` let through.
    pub open spec fn opened(self, id: CoreId) -> RequestLines {
        if id.0 == 0 {
            RequestLines { enabled0: true, ..self }
        } else {
            RequestLines { enabled1: true, ..self }
        }
    }

    /// Returns lines on which nothing is pending and nothing is let through.
    pub fn new() -> (lines: RequestLines)
        ensures
            lines == (RequestLines {
                pending0: false,
                pending1: false,
                enabled0: false,
                enabled1: false,
            }),
    {
        RequestLines { pending0: false, pending1: false, enabled0: false, enabled1: false }
    }

    /// Returns whether a request to core `id` is pending.
    pub fn is_pending(&self, id: CoreId) -> (p: bool)
        ensures
            p == self.pending(id),
    {
        if id.0 == 0 {
            self.pending0
        } else {
            self.pending1
        }
    }

    /// Serves the request to core `id`, when its trap fires. Returns whether
    /// one was pending.
    pub fn take(&mut self, id: CoreId) -> (was_pending: bool)
        ensures
            was_pending == old(self).pending(id),
            *final(self) == old(self).served(id),
    {
        if id.0 == 0 {
            let p = self.pending0;
            self.pending0 = false;
            p
        } else {
            let p = self.pending1;
            self.pending1 = false;
            p
        }
    }

    fn raise(&mut self, id: CoreId)
        ensures
            *final(self) == old(self).raised(id),
    {
        if id.0 == 0 {
            self.pending0 = true;
        } else {
            self.pending1 = true;
        }
    }
}

/// The core that a request meant for core `id` goes to: `id` itself, or the
/// other core where a request to `id` is pending already.
pub open spec fn signal_target(lines: RequestLines, id: CoreId) -> CoreId {
    if lines.pending(id) {
        id.spec_other()
    } else {
        id
    }
}

/// A chip with two cores.
pub struct Chip;

impl Chip {
    /// The number of cores.
    pub const CORES: u32 = 2;

    /// The size in bytes of the stack of the thread that idles on a core.
    pub const IDLE_THREAD_STACK_SIZE: usize = 2048;

    /// Asks core `id` to run the scheduler. If a request to that core is
    /// pending already, the other core is asked instead, so that a change of
    /// the run queue that the pending request may come too early for is
    /// still seen.
    pub fn schedule_on_core(lines: &mut RequestLines, id: CoreId)
        requires
            id.0 < 2,
        ensures
            *final(lines) == old(lines).raised(signal_target(*old(lines), id)),
    {
        let mut target = id;
        let already_set = lines.is_pending(id);
        if already_set {
            target = id.other();
        }
        lines.raise(target);
    }

    /// What a core other than the first does when it starts: it asks itself
    /// to run the scheduler and then lets its request line through, so that
    /// it enters the scheduler like the first core.
    pub fn start_core(lines: &mut RequestLines, id: CoreId)
        requires
            id.0 < 2,
        ensures
            *final(lines) == old(lines).raised(signal_target(*old(lines), id)).opened(id),
    {
        Self::schedule_on_core(lines, id);
        if id.0 == 0 {
            lines.enabled0 = true;
        } else {
            lines.enabled1 = true;
        }
    }
}

/// A request is never lost and never merged: after `schedule_on_core` a
/// request is pending on the target or on the other core, every request
/// that was pending still is, and if the target had one pending, then now
/// both cores have.
pub proof fn law_signal_reaches_a_core(lines: RequestLines, id: CoreId)
    requires
        id.0 < 2,
    ensures
        ({
            let after = lines.raised(signal_target(lines, id));
            &&& after.pending(id)
            &&& lines.pending(id) ==> after.pending(id.spec_other())
            &&& lines.pending(id.spec_other()) ==> after.pending(id.spec_other())
            &&& !lines.pending(id) ==> after == lines.raised(id)
            &&& after.enabled0 == lines.enabled0 && after.enabled1 == lines.enabled1
        }),
{
    let x = id.0;
    assert(x < 2 ==> (x ^ 1) < 2 && (x ^ 1) != x) by (bit_vector);
}

} // verus!
