//! Bring-up sequencing and table-construction tests.

use chronos::gdt;
use chronos::interrupts;
use chronos::interrupts::HandlerAddresses;
use chronos::interrupts::InterruptTable;
use chronos::BootStage;
use chronos::Kernel;
use chronos::KernelError;
use chronos::QemuExitCode;

fn handlers() -> HandlerAddresses {
    HandlerAddresses { breakpoint: 0x1000, double_fault: 0x2000, timer: 0x3000, keyboard: 0x4000 }
}

#[test]
fn full_bring_up_reaches_interrupts_enabled() {
    let mut k = Kernel::new();
    assert_eq!(k.stage, BootStage::Start);
    let r = chronos::init(&mut k, 0x10_0000, handlers(), 0xFC, 0xFF);
    assert!(r.is_ok());
    assert_eq!(k.stage, BootStage::InterruptsEnabled);
    assert!(k.segments.is_some());
    assert!(k.table.is_some());
    assert!(k.pics.initialized);
}

#[test]
fn interrupt_table_before_segments_is_refused() {
    // The conformance check for the ordering contract: activating the
    // interrupt table on a fresh kernel, before the segment/task-state
    // activation, must be refused and leave the kernel unchanged.
    let mut k = Kernel::new();
    let r = interrupts::init_idt(&mut k, handlers());
    assert_eq!(r, Err(KernelError::OutOfOrder));
    assert_eq!(k.stage, BootStage::Start);
    assert!(k.table.is_none());

    // The same steps in the valid order are accepted.
    assert!(gdt::init(&mut k, 0x10_0000).is_ok());
    assert_eq!(k.stage, BootStage::SegmentsActive);
    assert!(interrupts::init_idt(&mut k, handlers()).is_ok());
    assert_eq!(k.stage, BootStage::TableActive);
}

#[test]
fn controller_before_table_is_refused() {
    let mut k = Kernel::new();
    assert_eq!(chronos::init_controller(&mut k, 0, 0), Err(KernelError::OutOfOrder));
    assert_eq!(chronos::enable_interrupts(&mut k), Err(KernelError::OutOfOrder));
    assert!(gdt::init(&mut k, 0x10_0000).is_ok());
    assert_eq!(chronos::init_controller(&mut k, 0, 0), Err(KernelError::OutOfOrder));
}

#[test]
fn second_bring_up_is_refused() {
    let mut k = Kernel::new();
    assert!(chronos::init(&mut k, 0x10_0000, handlers(), 0, 0).is_ok());
    assert_eq!(
        chronos::init(&mut k, 0x10_0000, handlers(), 0, 0),
        Err(KernelError::OutOfOrder)
    );
}

#[test]
fn task_state_record_populates_exactly_one_slot() {
    let record = gdt::TaskStateRecord::build(0x10_0000);
    assert_eq!(record.interrupt_stack_table.len(), 7);
    assert_eq!(
        record.interrupt_stack_table[gdt::DOUBLE_FAULT_IST_INDEX as usize],
        Some(0x10_0000 + gdt::FAULT_STACK_SIZE)
    );
    for slot in 1..7 {
        assert_eq!(record.interrupt_stack_table[slot], None);
    }
}

#[test]
fn segment_set_layout_and_selectors() {
    let (set, selectors) = gdt::build(0x10_0000);
    assert_eq!(set.descriptors.len(), 2);
    assert_eq!(set.descriptors[0], gdt::SegmentDescriptor::KernelCode);
    assert_eq!(set.descriptors[1], gdt::SegmentDescriptor::TaskState);
    assert_eq!(selectors.code, 0);
    assert_eq!(selectors.tss, 1);
}

#[test]
fn interrupt_table_binds_exactly_four_vectors() {
    let table = InterruptTable::build(handlers());
    assert_eq!(table.entries.len(), 256);
    let mut bound = 0;
    for (vector, entry) in table.entries.iter().enumerate() {
        if let Some(binding) = entry {
            bound += 1;
            // Every bound handler address is non-null.
            assert!(binding.handler != 0);
            match vector {
                3 => assert_eq!(binding.stack_index, None),
                // The double-fault binding names the task-state record's
                // populated slot.
                8 => assert_eq!(binding.stack_index, Some(gdt::DOUBLE_FAULT_IST_INDEX)),
                32 => assert_eq!(binding.handler, 0x3000),
                33 => assert_eq!(binding.handler, 0x4000),
                _ => panic!("unexpected bound vector {}", vector),
            }
        }
    }
    assert_eq!(bound, 4);
}

#[test]
fn exit_codes() {
    assert_eq!(QemuExitCode::Success.as_u32(), 0x10);
    assert_eq!(QemuExitCode::Failed.as_u32(), 0x11);
}
