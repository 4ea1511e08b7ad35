//! Descriptor table builder and fault stack provisioner.
//!
//! Builds the global descriptor table (null entry, kernel code segment, task
//! state segment descriptor) and the task state segment whose interrupt stack
//! table carries the dedicated double-fault stack. Loading the table into the
//! processor is left to the boot code; everything here is pure construction.

use vstd::prelude::*;
use x86_64::registers::segmentation::SegmentSelector;
use x86_64::structures::gdt::Descriptor;
use x86_64::structures::gdt::GlobalDescriptorTable;
use x86_64::structures::tss::TaskStateSegment;

verus! {

/// Interrupt-stack-table slot reserved for the double-fault handler's stack.
pub const DOUBLE_FAULT_IST_INDEX: u16 = 0;

/// Size of the dedicated double-fault stack in bytes (five 4 KiB pages).
pub const STACK_SIZE: usize = 4096 * 5;

/// Number of interrupt-stack-table slots in a task state segment.
pub const IST_SLOTS: usize = 7;

/// The 64-bit kernel code segment descriptor (present, executable, long mode).
pub const KERNEL_CODE_DESCRIPTOR: u64 = 0x00af9b000000ffff;

/// Declares x86_64's GlobalDescriptorTable, opaque; `gdt_entries` names what
/// it holds.
#[verifier::external_type_specification]
#[verifier::external_body]
pub struct ExGlobalDescriptorTable(GlobalDescriptorTable);

/// Declares x86_64's TaskStateSegment, opaque; `tss_ist` names its interrupt
/// stack table.
#[verifier::external_type_specification]
#[verifier::external_body]
pub struct ExTaskStateSegment(TaskStateSegment);

/// Declares x86_64's SegmentSelector with its public raw field visible.
#[verifier::external_type_specification]
pub struct ExSegmentSelector(SegmentSelector);

/// Declares x86_64's Descriptor with its two variants visible.
#[verifier::external_type_specification]
pub struct ExDescriptor(Descriptor);

/// The descriptor words a global descriptor table holds, null entry included;
/// a system segment descriptor spans two words.
pub uninterp spec fn gdt_entries(gdt: GlobalDescriptorTable) -> Seq<u64>;

/// The seven interrupt-stack-table slots of a task state segment, as plain
/// addresses.
pub uninterp spec fn tss_ist(tss: TaskStateSegment) -> Seq<u64>;

/// The words a single descriptor occupies in the table.
pub open spec fn descriptor_words(d: Descriptor) -> Seq<u64> {
    match d {
        Descriptor::UserSegment(value) => seq![value],
        Descriptor::SystemSegment(low, high) => seq![low, high],
    }
}

/// The descriptor privilege level held in bits 45 and 46 of the first word.
pub open spec fn descriptor_dpl(d: Descriptor) -> u64 {
    (descriptor_words(d)[0] >> 45) & 3
}

/// An address the hardware accepts as virtual: bits 47 to 63 all clear or all
/// set.
pub open spec fn is_canonical(addr: u64) -> bool {
    addr < 0x8000_0000_0000 || addr >= 0xffff_8000_0000_0000
}

/// Relies on GlobalDescriptorTable::new: the fresh table holds only the null
/// entry.
#[verifier::external_body]
fn gdt_new() -> (gdt: GlobalDescriptorTable)
    ensures
        gdt_entries(gdt) == seq![0u64],
{
    GlobalDescriptorTable::new()
}

/// Relies on GlobalDescriptorTable::add_entry: appends the descriptor's words
/// and returns a selector made of the new entry's index and the descriptor's
/// privilege level. The table holds eight words; a fuller one panics.
#[verifier::external_body]
fn gdt_add_entry(gdt: &mut GlobalDescriptorTable, entry: Descriptor) -> (sel: SegmentSelector)
    requires
        gdt_entries(*old(gdt)).len() + descriptor_words(entry).len() <= 8,
    ensures
        gdt_entries(*final(gdt)) == gdt_entries(*old(gdt)) + descriptor_words(entry),
        sel.0 as int == gdt_entries(*old(gdt)).len() * 8 + descriptor_dpl(entry),
{
    gdt.add_entry(entry)
}

/// Relies on Descriptor::kernel_code_segment: returns the fixed 64-bit kernel
/// code segment descriptor.
#[verifier::external_body]
fn kernel_code_segment() -> (d: Descriptor)
    ensures
        d == Descriptor::UserSegment(KERNEL_CODE_DESCRIPTOR),
{
    Descriptor::kernel_code_segment()
}

/// Relies on TaskStateSegment::new: every interrupt-stack-table slot starts at
/// zero.
#[verifier::external_body]
fn tss_new() -> (tss: TaskStateSegment)
    ensures
        tss_ist(tss) == seq![0u64, 0u64, 0u64, 0u64, 0u64, 0u64, 0u64],
{
    TaskStateSegment::new()
}

/// Relies on the public interrupt_stack_table field of TaskStateSegment and on
/// VirtAddr::new, which accepts exactly the canonical addresses: writes one
/// slot and leaves the rest unchanged.
#[verifier::external_body]
fn tss_set_ist(tss: &mut TaskStateSegment, index: usize, addr: u64)
    requires
        index < IST_SLOTS,
        is_canonical(addr),
        tss_ist(*old(tss)).len() == IST_SLOTS,
    ensures
        tss_ist(*final(tss)) == tss_ist(*old(tss)).update(index as int, addr),
{
    tss.interrupt_stack_table[index] = x86_64::VirtAddr::new(addr);
}

/// Relies on the public interrupt_stack_table field of TaskStateSegment and on
/// VirtAddr::as_u64: reads one slot back as a plain address.
#[verifier::external_body]
pub fn tss_ist_entry(tss: &TaskStateSegment, index: usize) -> (addr: u64)
    requires
        index < IST_SLOTS,
        tss_ist(*tss).len() == IST_SLOTS,
    ensures
        addr == tss_ist(*tss)[index as int],
{
    let slot = tss.interrupt_stack_table[index];
    slot.as_u64()
}

/// First word of a task-segment descriptor for a task state segment placed at
/// `base`: present bit, type `0b1001` (available 64-bit TSS), the limit
/// `0x67` (the record's size less one), and the low 32 base-address bits.
pub open spec fn tss_descriptor_low(base: u64) -> u64 {
    (1u64 << 47) | ((base & 0xffffff) << 16) | (((base >> 24) & 0xff) << 56) | 0x67 | (
    9u64 << 40)
}

/// Second word of a task-segment descriptor: the high 32 base-address bits.
pub open spec fn tss_descriptor_high(base: u64) -> u64 {
    base >> 32
}

/// The CPU-defined layout is faithful: the two descriptor words determine the
/// base address again, the present bit is set, the type is an available
/// 64-bit TSS, the limit covers the whole record, and the privilege level is
/// ring 0.
pub proof fn lemma_tss_descriptor_layout(base: u64)
    by (bit_vector)
    ensures
        ((tss_descriptor_low(base) >> 16) & 0xffffff) | (((tss_descriptor_low(base) >> 56)
            & 0xff) << 24) | (tss_descriptor_high(base) << 32) == base,
        (tss_descriptor_low(base) >> 47) & 1 == 1,
        (tss_descriptor_low(base) >> 40) & 0xf == 9,
        tss_descriptor_low(base) & 0xffff == 0x67,
        (tss_descriptor_low(base) >> 45) & 3 == 0,
{
}

/// Packs the address of a task state segment into the two words of its
/// descriptor-table entry.
pub fn tss_descriptor(base: u64) -> (words: (u64, u64))
    ensures
        words.0 == tss_descriptor_low(base),
        words.1 == tss_descriptor_high(base),
{
    let low: u64 = (1u64 << 47) | ((base & 0xffffff) << 16) | (((base >> 24) & 0xff) << 56)
        | 0x67 | (9u64 << 40);
    let high: u64 = base >> 32;
    (low, high)
}

/// The selectors that appending the code segment and the task segment to the
/// descriptor table yields; the boot code consumes them exactly once when it
/// updates the code-segment register and the task register.
pub struct Selectors {
    pub code_selector: SegmentSelector,
    pub tss_selector: SegmentSelector,
}

/// Builds the global descriptor table: the null entry, the kernel code
/// segment, and the task-segment descriptor for a task state segment placed
/// at `tss_base`. Returns the table with the two selectors, ring 0 each, the
/// code segment at index 1 and the task segment at index 2.
pub fn build_gdt(tss_base: u64) -> (r: (GlobalDescriptorTable, Selectors))
    ensures
        gdt_entries(r.0) == seq![
            0u64,
            KERNEL_CODE_DESCRIPTOR,
            tss_descriptor_low(tss_base),
            tss_descriptor_high(tss_base),
        ],
        r.1.code_selector.0 == 8,
        r.1.tss_selector.0 == 16,
{
    let mut gdt = gdt_new();
    let code_descriptor = kernel_code_segment();
    proof {
        assert((KERNEL_CODE_DESCRIPTOR >> 45) & 3 == 0) by (bit_vector);
    }
    let code_selector = gdt_add_entry(&mut gdt, code_descriptor);
    let (low, high) = tss_descriptor(tss_base);
    proof {
        lemma_tss_descriptor_layout(tss_base);
    }
    let tss_selector = gdt_add_entry(&mut gdt, Descriptor::SystemSegment(low, high));
    proof {
        assert(gdt_entries(gdt) =~= seq![
            0u64,
            KERNEL_CODE_DESCRIPTOR,
            tss_descriptor_low(tss_base),
            tss_descriptor_high(tss_base),
        ]);
    }
    (gdt, Selectors { code_selector, tss_selector })
}

/// The top of the dedicated fault stack: hardware stacks grow downward, so the
/// initial stack pointer is one past the region's highest byte.
pub fn fault_stack_top(stack_base: u64) -> (top: u64)
    requires
        stack_base + STACK_SIZE <= u64::MAX,
    ensures
        top == stack_base + STACK_SIZE,
{
    stack_base + (STACK_SIZE as u64)
}

/// Builds the task state segment for a dedicated fault stack that starts at
/// `stack_base`: the double-fault slot of the interrupt stack table holds the
/// stack's top address, every other slot stays empty.
pub fn build_tss(stack_base: u64) -> (tss: TaskStateSegment)
    requires
        stack_base + STACK_SIZE <= u64::MAX,
        is_canonical((stack_base + STACK_SIZE) as u64),
    ensures
        tss_ist(tss).len() == IST_SLOTS,
        tss_ist(tss)[DOUBLE_FAULT_IST_INDEX as int] == stack_base + STACK_SIZE,
        forall|i: int|
            0 <= i < IST_SLOTS && i != DOUBLE_FAULT_IST_INDEX ==> tss_ist(tss)[i] == 0,
{
    let mut tss = tss_new();
    let top = fault_stack_top(stack_base);
    tss_set_ist(&mut tss, DOUBLE_FAULT_IST_INDEX as usize, top);
    tss
}

} // verus!
