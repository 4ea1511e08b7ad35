//! Trap vector table builder and fault handlers.
//!
//! The table binds handler entry points to the breakpoint and double-fault
//! vectors; the double-fault binding carries the interrupt-stack-table slot
//! provisioned for it, so the processor switches to the dedicated fault stack
//! before pushing the fault frame. The handlers decide what every trap comes
//! to: a breakpoint is reported and resumed, a double fault is reported and
//! the machine halts for good.

use vstd::prelude::*;
use crate::gdt::DOUBLE_FAULT_IST_INDEX;

verus! {

/// One trap-table binding: a handler entry point, and optionally the
/// interrupt-stack-table slot the processor switches to on entry.
#[derive(Clone, Copy, Debug, PartialEq, Eq)]
pub struct TrapGate {
    pub handler: u64,
    pub stack_index: Option<u16>,
}

/// The trap vector table, reduced to the two vectors this subsystem binds.
/// An unbound vector means the processor has nowhere to go when that trap
/// fires and the fault degenerates into a double fault.
#[derive(Clone, Copy, Debug, PartialEq, Eq)]
pub struct TrapTable {
    pub breakpoint: Option<TrapGate>,
    pub double_fault: Option<TrapGate>,
}

impl TrapTable {
    /// An empty table: nothing bound yet.
    pub fn new() -> (t: TrapTable)
        ensures
            t.breakpoint is None,
            t.double_fault is None,
    {
        TrapTable { breakpoint: None, double_fault: None }
    }

    /// Binds the breakpoint vector to `handler`; a breakpoint trap is shallow
    /// and recoverable, so it runs on the current stack.
    pub fn set_breakpoint_handler(&mut self, handler: u64)
        ensures
            final(self).breakpoint == Some(TrapGate { handler, stack_index: None }),
            final(self).double_fault == old(self).double_fault,
    {
        self.breakpoint = Some(TrapGate { handler, stack_index: None });
    }

    /// Binds the double-fault vector to `handler` and annotates it with the
    /// stack-table slot to switch to. The slot must be populated with a valid
    /// stack, via the task state segment installed by the descriptor table,
    /// by the time this table is loaded; the table itself cannot check that,
    /// so the initialization sequencer orders the loads.
    pub fn set_double_fault_handler(&mut self, handler: u64, stack_index: u16)
        ensures
            final(self).double_fault == Some(
                TrapGate { handler, stack_index: Some(stack_index) },
            ),
            final(self).breakpoint == old(self).breakpoint,
    {
        self.double_fault = Some(TrapGate { handler, stack_index: Some(stack_index) });
    }
}

/// Builds the trap vector table: the breakpoint vector bound to
/// `breakpoint_handler` on the current stack, the double-fault vector bound
/// to `double_fault_handler` on the dedicated fault stack.
pub fn build_trap_table(breakpoint_handler: u64, double_fault_handler: u64) -> (t: TrapTable)
    ensures
        t.breakpoint == Some(TrapGate { handler: breakpoint_handler, stack_index: None }),
        t.double_fault == Some(
            TrapGate {
                handler: double_fault_handler,
                stack_index: Some(DOUBLE_FAULT_IST_INDEX),
            },
        ),
{
    let mut t = TrapTable::new();
    t.set_breakpoint_handler(breakpoint_handler);
    t.set_double_fault_handler(double_fault_handler, DOUBLE_FAULT_IST_INDEX);
    t
}

/// The state the processor pushes when it delivers a trap.
#[derive(Clone, Copy, Debug, PartialEq, Eq)]
pub struct TrapFrame {
    pub instruction_pointer: u64,
    pub code_segment: u64,
    pub cpu_flags: u64,
    pub stack_pointer: u64,
    pub stack_segment: u64,
}

/// Which trap a handler reports.
#[derive(Clone, Copy, Debug, PartialEq, Eq, Structural)]
pub enum TrapKind {
    Breakpoint,
    DoubleFault,
}

/// How a handler leaves the machine: a recoverable trap resumes the
/// interrupted instruction stream right after the trapping instruction, a
/// fatal one never returns control to the faulting context.
#[derive(Clone, Copy, Debug, PartialEq, Eq, Structural)]
pub enum TrapOutcome {
    Resume,
    Halt,
}

/// One diagnostic line: which trap fired, with the frame it captured.
#[derive(Clone, Copy, Debug, PartialEq, Eq)]
pub struct TrapReport {
    pub kind: TrapKind,
    pub frame: TrapFrame,
}

/// The breakpoint handler: reports the captured frame in exactly one
/// diagnostic line and resumes. Calling it leaves no other state behind, so
/// triggering it any number of times yields that many lines and nothing else.
pub fn breakpoint_handler(stack_frame: TrapFrame) -> (r: (TrapReport, TrapOutcome))
    ensures
        r.0 == (TrapReport { kind: TrapKind::Breakpoint, frame: stack_frame }),
        r.1 == TrapOutcome::Resume,
{
    (TrapReport { kind: TrapKind::Breakpoint, frame: stack_frame }, TrapOutcome::Resume)
}

/// The double-fault handler: reports the captured frame in exactly one
/// diagnostic line and halts. A double fault carries no resumable state, so
/// the outcome is never `Resume`; the error code the hardware pushes is
/// always zero and adds nothing to the report.
pub fn double_fault_handler(stack_frame: TrapFrame, _error_code: u64) -> (r: (
    TrapReport,
    TrapOutcome,
))
    ensures
        r.0 == (TrapReport { kind: TrapKind::DoubleFault, frame: stack_frame }),
        r.1 == TrapOutcome::Halt,
{
    (TrapReport { kind: TrapKind::DoubleFault, frame: stack_frame }, TrapOutcome::Halt)
}

} // verus!
