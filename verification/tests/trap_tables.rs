//! The trap subsystem end to end: descriptor table, task state segment,
//! trap vector table, handlers, and the initialization sequencer.

use caffeine::boot::init;
use caffeine::boot::init_gdt;
use caffeine::boot::init_idt;
use caffeine::boot::InitSequencer;
use caffeine::boot::Phase;
use caffeine::gdt::build_gdt;
use caffeine::gdt::build_tss;
use caffeine::gdt::fault_stack_top;
use caffeine::gdt::tss_descriptor;
use caffeine::gdt::tss_ist_entry;
use caffeine::gdt::DOUBLE_FAULT_IST_INDEX;
use caffeine::gdt::KERNEL_CODE_DESCRIPTOR;
use caffeine::gdt::STACK_SIZE;
use caffeine::idt::breakpoint_handler;
use caffeine::idt::build_trap_table;
use caffeine::idt::double_fault_handler;
use caffeine::idt::TrapFrame;
use caffeine::idt::TrapKind;
use caffeine::idt::TrapOutcome;
use x86_64::structures::gdt::Descriptor;

fn sample_frame() -> TrapFrame {
    TrapFrame {
        instruction_pointer: 0x20_1234,
        code_segment: 8,
        cpu_flags: 0x202,
        stack_pointer: 0x57ac_0000,
        stack_segment: 0,
    }
}

#[test]
fn stack_top_is_base_plus_size() {
    assert_eq!(STACK_SIZE, 4096 * 5);
    assert_eq!(fault_stack_top(0x4000_0000), 0x4000_0000 + 20480);
}

#[test]
fn tss_records_fault_stack_top_in_its_slot() {
    let base: u64 = 0x4444_0000;
    let tss = build_tss(base);
    assert_eq!(
        tss_ist_entry(&tss, DOUBLE_FAULT_IST_INDEX as usize),
        base + STACK_SIZE as u64
    );
    for slot in 1..7 {
        assert_eq!(tss_ist_entry(&tss, slot), 0);
    }
}

#[test]
fn tss_descriptor_packs_the_hardware_layout() {
    let base: u64 = 0x0000_1234_5678_9abc;
    let (low, high) = tss_descriptor(base);
    assert_eq!(low, 0x5600_8978_9abc_0067);
    assert_eq!(high, 0x1234);
    // field by field: limit, base slices, type, present, privilege
    assert_eq!(low & 0xffff, 0x67);
    assert_eq!((low >> 16) & 0xff_ffff, base & 0xff_ffff);
    assert_eq!((low >> 56) & 0xff, (base >> 24) & 0xff);
    assert_eq!((low >> 40) & 0xf, 0b1001);
    assert_eq!((low >> 47) & 1, 1);
    assert_eq!((low >> 45) & 3, 0);
}

#[test]
fn gdt_holds_null_code_and_task_entries() {
    let base: u64 = 0x0000_1234_5678_9abc;
    let (gdt, selectors) = build_gdt(base);
    let (low, high) = tss_descriptor(base);
    assert_eq!(
        gdt.as_raw_slice(),
        &[0, KERNEL_CODE_DESCRIPTOR, low, high]
    );
    assert_eq!(selectors.code_selector.0, 8);
    assert_eq!(selectors.tss_selector.0, 16);
    assert_eq!(selectors.code_selector.index(), 1);
    assert_eq!(selectors.tss_selector.index(), 2);
}

#[test]
fn kernel_code_descriptor_matches_the_crate() {
    match Descriptor::kernel_code_segment() {
        Descriptor::UserSegment(value) => assert_eq!(value, KERNEL_CODE_DESCRIPTOR),
        Descriptor::SystemSegment(_, _) => panic!("kernel code segment is a user segment"),
    }
}

#[test]
fn trap_table_binds_both_vectors() {
    let table = build_trap_table(0x1000, 0x2000);
    let breakpoint = table.breakpoint.unwrap();
    assert_eq!(breakpoint.handler, 0x1000);
    assert_eq!(breakpoint.stack_index, None);
    let double_fault = table.double_fault.unwrap();
    assert_eq!(double_fault.handler, 0x2000);
    assert_eq!(double_fault.stack_index, Some(DOUBLE_FAULT_IST_INDEX));
}

#[test]
fn sequencer_runs_the_boot_chain_in_order() {
    let tss = build_tss(0x4444_0000);
    let table = build_trap_table(0x1000, 0x2000);
    let mut sequencer = InitSequencer::new();
    assert_eq!(sequencer.phase, Phase::Uninitialized);
    assert_eq!(sequencer.fault_stack_top, 0);

    sequencer.tables_built(&tss, &table);
    assert_eq!(sequencer.phase, Phase::TablesBuilt);
    assert_eq!(sequencer.fault_stack_top, 0x4444_0000 + STACK_SIZE as u64);

    init_gdt(&mut sequencer);
    assert_eq!(sequencer.phase, Phase::SelectorsLoaded);

    init_idt(&mut sequencer, &table);
    assert_eq!(sequencer.phase, Phase::Active);
    assert_eq!(sequencer.fault_stack_top, 0x4444_0000 + STACK_SIZE as u64);
}

#[test]
fn init_reaches_the_active_phase_in_one_call() {
    let tss = build_tss(0x4444_0000);
    let table = build_trap_table(0x1000, 0x2000);
    let mut sequencer = InitSequencer::new();
    init(&mut sequencer, &tss, &table);
    assert_eq!(sequencer.phase, Phase::Active);
    assert_eq!(sequencer.fault_stack_top, 0x4444_0000 + STACK_SIZE as u64);
}

#[test]
fn breakpoint_reports_once_and_resumes() {
    let tss = build_tss(0x4444_0000);
    let table = build_trap_table(0x1000, 0x2000);
    let mut sequencer = InitSequencer::new();
    init(&mut sequencer, &tss, &table);
    assert_eq!(sequencer.phase, Phase::Active);

    let frame = sample_frame();
    let (report, outcome) = breakpoint_handler(frame);
    assert_eq!(report.kind, TrapKind::Breakpoint);
    assert_eq!(report.frame, frame);
    assert_eq!(outcome, TrapOutcome::Resume);

    // triggering it again yields one more report and nothing else changes
    let (second, outcome) = breakpoint_handler(frame);
    assert_eq!(second, report);
    assert_eq!(outcome, TrapOutcome::Resume);
    assert_eq!(sequencer.phase, Phase::Active);
}

#[test]
fn double_fault_reports_once_and_halts() {
    let tss = build_tss(0x4444_0000);
    let table = build_trap_table(0x1000, 0x2000);
    let mut sequencer = InitSequencer::new();
    init(&mut sequencer, &tss, &table);

    // the vector the fault arrives on switches to the populated fault stack
    assert_eq!(
        table.double_fault.unwrap().stack_index,
        Some(DOUBLE_FAULT_IST_INDEX)
    );
    assert_ne!(sequencer.fault_stack_top, 0);

    let frame = sample_frame();
    let (report, outcome) = double_fault_handler(frame, 0);
    assert_eq!(report.kind, TrapKind::DoubleFault);
    assert_eq!(report.frame, frame);
    assert_eq!(outcome, TrapOutcome::Halt);
}
