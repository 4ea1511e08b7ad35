//! Initialization sequencer.
//!
//! The trap subsystem passes through a fixed chain of phases: nothing built,
//! tables built but no hardware state touched, descriptor table loaded,
//! segment selectors and task register switched, trap table loaded and traps
//! live. Each hardware load the boot code performs advances the sequencer one
//! step, and every step's precondition pins the order; the chain is
//! irreversible, so the sequence runs exactly once per boot.

use vstd::prelude::*;
use crate::gdt::DOUBLE_FAULT_IST_INDEX;
use crate::gdt::IST_SLOTS;
use crate::gdt::tss_ist;
use crate::idt::TrapTable;
use x86_64::structures::tss::TaskStateSegment;

verus! {

/// The phases of the trap subsystem, in the order they are passed through.
#[derive(Clone, Copy, Debug, PartialEq, Eq, Structural)]
pub enum Phase {
    /// Nothing constructed, nothing loaded.
    Uninitialized,
    /// Descriptor table, task state segment and trap table constructed; no
    /// hardware state touched yet.
    TablesBuilt,
    /// The descriptor table register points at the built table.
    DescriptorTableLoaded,
    /// The code-segment register and the task register hold the selectors the
    /// descriptor table yielded.
    SelectorsLoaded,
    /// The trap table register points at the built trap table: traps are
    /// taken safely from here on, and no phase follows.
    Active,
}

/// The steps the boot code performs, one hardware action each (the first one
/// only forces construction).
#[derive(Clone, Copy, Debug, PartialEq, Eq, Structural)]
pub enum BootStep {
    BuildTables,
    LoadDescriptorTable,
    LoadSelectors,
    LoadTrapTable,
}

/// The transition relation of the boot chain: which step applies in which
/// phase, and where it leads. Everything else, in particular any step taken
/// in the active phase, is inadmissible.
pub open spec fn next_phase(p: Phase, step: BootStep) -> Option<Phase> {
    match (p, step) {
        (Phase::Uninitialized, BootStep::BuildTables) => Some(Phase::TablesBuilt),
        (Phase::TablesBuilt, BootStep::LoadDescriptorTable) => Some(
            Phase::DescriptorTableLoaded,
        ),
        (Phase::DescriptorTableLoaded, BootStep::LoadSelectors) => Some(Phase::SelectorsLoaded),
        (Phase::SelectorsLoaded, BootStep::LoadTrapTable) => Some(Phase::Active),
        _ => None,
    }
}

/// Runs a sequence of steps through the transition relation; `None` once any
/// step is inadmissible.
pub open spec fn run_steps(p: Phase, steps: Seq<BootStep>) -> Option<Phase>
    decreases steps.len(),
{
    if steps.len() == 0 {
        Some(p)
    } else {
        match next_phase(p, steps[0]) {
            Some(q) => run_steps(q, steps.drop_first()),
            None => None,
        }
    }
}

/// The steps still owed from a given phase before the subsystem is active.
pub open spec fn steps_from(p: Phase) -> Seq<BootStep> {
    match p {
        Phase::Uninitialized => seq![
            BootStep::BuildTables,
            BootStep::LoadDescriptorTable,
            BootStep::LoadSelectors,
            BootStep::LoadTrapTable,
        ],
        Phase::TablesBuilt => seq![
            BootStep::LoadDescriptorTable,
            BootStep::LoadSelectors,
            BootStep::LoadTrapTable,
        ],
        Phase::DescriptorTableLoaded => seq![BootStep::LoadSelectors, BootStep::LoadTrapTable],
        Phase::SelectorsLoaded => seq![BootStep::LoadTrapTable],
        Phase::Active => seq![],
    }
}

/// Any run that takes a phase to `Active` consists of exactly the steps still
/// owed from that phase, in their fixed order.
pub proof fn lemma_run_to_active(p: Phase, steps: Seq<BootStep>)
    requires
        run_steps(p, steps) == Some(Phase::Active),
    ensures
        steps =~= steps_from(p),
    decreases steps.len(),
{
    if steps.len() == 0 {
    } else {
        let q = next_phase(p, steps[0]);
        if q is Some {
            lemma_run_to_active(q->0, steps.drop_first());
        }
    }
}

/// The ordering invariant is load-bearing: the only run of steps that brings
/// the subsystem from power-on to taking traps is build tables, load
/// descriptor table, load selectors and task register, load trap table — each
/// exactly once, in that order, and no step is admissible once the subsystem
/// is active.
pub proof fn lemma_boot_order(steps: Seq<BootStep>)
    requires
        run_steps(Phase::Uninitialized, steps) == Some(Phase::Active),
    ensures
        steps =~= seq![
            BootStep::BuildTables,
            BootStep::LoadDescriptorTable,
            BootStep::LoadSelectors,
            BootStep::LoadTrapTable,
        ],
        forall|step: BootStep| next_phase(Phase::Active, step) is None,
{
    lemma_run_to_active(Phase::Uninitialized, steps);
}

/// Tracks how far the boot chain has come, and the one value later steps
/// depend on: the fault-stack top recorded in the task state segment when the
/// tables were built (zero until then).
pub struct InitSequencer {
    pub phase: Phase,
    pub fault_stack_top: u64,
}

impl InitSequencer {
    /// A sequencer at power-on: nothing done yet.
    pub fn new() -> (s: InitSequencer)
        ensures
            s.phase == Phase::Uninitialized,
            s.fault_stack_top == 0,
    {
        InitSequencer { phase: Phase::Uninitialized, fault_stack_top: 0 }
    }

    /// Construction is done: the task state segment holds a stack top in the
    /// double-fault slot, and the trap table's double-fault binding names
    /// that very slot. Records the stack top for the later loads.
    pub fn tables_built(&mut self, tss: &TaskStateSegment, table: &TrapTable)
        requires
            old(self).phase == Phase::Uninitialized,
            tss_ist(*tss).len() == IST_SLOTS,
            tss_ist(*tss)[DOUBLE_FAULT_IST_INDEX as int] != 0,
            table.double_fault matches Some(gate) && gate.stack_index == Some(
                DOUBLE_FAULT_IST_INDEX,
            ),
        ensures
            Some(final(self).phase) == next_phase(old(self).phase, BootStep::BuildTables),
            final(self).phase == Phase::TablesBuilt,
            final(self).fault_stack_top == tss_ist(*tss)[DOUBLE_FAULT_IST_INDEX as int],
    {
        self.phase = Phase::TablesBuilt;
        self.fault_stack_top = crate::gdt::tss_ist_entry(tss, DOUBLE_FAULT_IST_INDEX as usize);
    }

    /// The descriptor table register now points at the built table.
    pub fn descriptor_table_loaded(&mut self)
        requires
            old(self).phase == Phase::TablesBuilt,
        ensures
            Some(final(self).phase) == next_phase(old(self).phase, BootStep::LoadDescriptorTable),
            final(self).phase == Phase::DescriptorTableLoaded,
            final(self).fault_stack_top == old(self).fault_stack_top,
    {
        self.phase = Phase::DescriptorTableLoaded;
    }

    /// The code-segment register and the task register now hold the selectors
    /// the descriptor table yielded; only now does the processor know where
    /// the interrupt stack table lives.
    pub fn selectors_loaded(&mut self)
        requires
            old(self).phase == Phase::DescriptorTableLoaded,
        ensures
            Some(final(self).phase) == next_phase(old(self).phase, BootStep::LoadSelectors),
            final(self).phase == Phase::SelectorsLoaded,
            final(self).fault_stack_top == old(self).fault_stack_top,
    {
        self.phase = Phase::SelectorsLoaded;
    }

    /// The trap table register now points at the built trap table. Admissible
    /// only after the selectors are live and only for a table whose
    /// double-fault binding names the slot that was seen populated — the
    /// temporal coupling that makes the stack-switch annotation safe.
    pub fn trap_table_loaded(&mut self, table: &TrapTable)
        requires
            old(self).phase == Phase::SelectorsLoaded,
            old(self).fault_stack_top != 0,
            table.double_fault matches Some(gate) && gate.stack_index == Some(
                DOUBLE_FAULT_IST_INDEX,
            ),
        ensures
            Some(final(self).phase) == next_phase(old(self).phase, BootStep::LoadTrapTable),
            final(self).phase == Phase::Active,
            final(self).fault_stack_top == old(self).fault_stack_top,
    {
        self.phase = Phase::Active;
    }
}

/// Advances the sequencer across the two register loads that install the
/// descriptor table: the table register first, then the code-segment selector
/// and task register. The boot code performs the two loads in this order
/// beside it.
pub fn init_gdt(s: &mut InitSequencer)
    requires
        old(s).phase == Phase::TablesBuilt,
    ensures
        final(s).phase == Phase::SelectorsLoaded,
        final(s).fault_stack_top == old(s).fault_stack_top,
{
    s.descriptor_table_loaded();
    s.selectors_loaded();
}

/// Advances the sequencer across the trap-table load, the step that makes the
/// subsystem active. The boot code loads the trap table register beside it.
pub fn init_idt(s: &mut InitSequencer, table: &TrapTable)
    requires
        old(s).phase == Phase::SelectorsLoaded,
        old(s).fault_stack_top != 0,
        table.double_fault matches Some(gate) && gate.stack_index == Some(
            DOUBLE_FAULT_IST_INDEX,
        ),
    ensures
        final(s).phase == Phase::Active,
        final(s).fault_stack_top == old(s).fault_stack_top,
{
    s.trap_table_loaded(table);
}

/// The single ordered entry point the kernel boot routine drives exactly once:
/// record the built tables, load the descriptor table, switch the selectors,
/// load the trap table. Requires a sequencer that has done nothing yet, so a
/// second invocation is inadmissible, and leaves the subsystem active.
pub fn init(s: &mut InitSequencer, tss: &TaskStateSegment, table: &TrapTable)
    requires
        old(s).phase == Phase::Uninitialized,
        tss_ist(*tss).len() == IST_SLOTS,
        tss_ist(*tss)[DOUBLE_FAULT_IST_INDEX as int] != 0,
        table.double_fault matches Some(gate) && gate.stack_index == Some(
            DOUBLE_FAULT_IST_INDEX,
        ),
    ensures
        final(s).phase == Phase::Active,
        final(s).fault_stack_top == tss_ist(*tss)[DOUBLE_FAULT_IST_INDEX as int],
{
    s.tables_built(tss, table);
    init_gdt(s);
    init_idt(s, table);
}

} // verus!
