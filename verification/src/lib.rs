//! Verified model of the earliest bring-up layer of a bare-metal x86_64
//! kernel: segment/task-state descriptors, the interrupt descriptor table,
//! the legacy dual-PIC driver, the interrupt handlers, and the bring-up
//! sequencer that activates them in the single valid order.
//!
//! The hardware itself (privileged table loads, port I/O) is driven by a
//! thin unverified shell; this crate holds the logic: what the tables
//! contain, which vectors are owned by which controller, what each handler
//! emits and acknowledges, and the ordering contract of bring-up.

use vstd::prelude::*;

pub mod gdt;
pub mod interrupts;
pub mod keyboard;
pub mod output;
pub mod pic;
pub mod vga_buffer;

use crate::gdt::SegmentSet;
use crate::gdt::Selectors;
use crate::interrupts::HandlerAddresses;
use crate::interrupts::InterruptTable;
use crate::interrupts::PIC_1_OFFSET;
use crate::interrupts::PIC_2_OFFSET;
use crate::keyboard::Decoder;
use crate::output::OutputEvent;
use crate::output::OutputLog;
use crate::pic::ChainedPics;
use crate::pic::init_command_sequence;

verus! {

/// How far bring-up has progressed.  Each stage is a hard precondition for
/// the next: segments and task state first, then the interrupt table, then
/// the controller remap, and only then are CPU interrupts unmasked.
#[derive(Debug, Clone, Copy, PartialEq, Eq, Structural)]
pub enum BootStage {
    /// Nothing activated yet.
    Start,
    /// Segment descriptors and task-state record are live.
    SegmentsActive,
    /// The interrupt table is loaded.
    TableActive,
    /// The interrupt controllers are remapped.
    ControllerReady,
    /// CPU interrupts are unmasked; hardware events are delivered.
    InterruptsEnabled,
}

/// Whether the process is still running or has reached the terminal halted
/// state of a fatal fault.
#[derive(Debug, Clone, Copy, PartialEq, Eq, Structural)]
pub enum ProcessStatus {
    /// Normal execution; interrupted contexts are resumed.
    Running,
    /// Terminal state after a double fault; never left.
    Halted,
}

/// The ways a request can be refused.
#[derive(Debug, Clone, Copy, PartialEq, Eq, Structural)]
pub enum KernelError {
    /// A bring-up step was attempted out of its place in the single valid
    /// order.
    OutOfOrder,
    /// An event cannot be delivered: interrupts are not yet enabled, the
    /// needed table is not live, or the process has halted.
    NotDeliverable,
}

/// The process-wide bring-up and interrupt-dispatch state: the one owner of
/// the descriptor tables, the controller driver, the scancode decoder and
/// the output log.
pub struct Kernel {
    /// Bring-up progress.
    pub stage: BootStage,
    /// Running, or halted by a double fault.
    pub status: ProcessStatus,
    /// The segment descriptor set and its selectors, once built.
    pub segments: Option<(SegmentSet, Selectors)>,
    /// The interrupt table, once built.
    pub table: Option<InterruptTable>,
    /// The interrupt controller driver.
    pub pics: ChainedPics,
    /// Everything emitted to the output collaborator.
    pub output: OutputLog,
    /// The keyboard scancode decoder.
    pub decoder: Decoder,
}

impl Kernel {
    /// The controllers are the standard pair, remapped contiguously clear
    /// of the CPU-exception range.
    pub open spec fn wf(self) -> bool {
        &&& self.pics.wf()
        &&& self.pics.offset1 == PIC_1_OFFSET
        &&& self.pics.offset2 == PIC_2_OFFSET
    }

    /// The interrupt table is live.
    pub open spec fn table_active(self) -> bool {
        ||| self.stage is TableActive
        ||| self.stage is ControllerReady
        ||| self.stage is InterruptsEnabled
    }

    /// A CPU exception with a live table binding can be delivered.
    pub open spec fn can_deliver_exception(self) -> bool {
        self.table_active() && self.status is Running
    }

    /// A hardware interrupt can be delivered: bring-up is complete and the
    /// process is running.
    pub open spec fn can_deliver_irq(self) -> bool {
        self.stage is InterruptsEnabled && self.status is Running
    }

    /// A fresh kernel: nothing activated, nothing emitted, the controller
    /// driver constructed for the standard contiguous remap.
    pub fn new() -> (k: Kernel)
        ensures
            k.wf(),
            k.stage is Start,
            k.status is Running,
            k.segments is None,
            k.table is None,
            !k.pics.initialized,
            k.pics.issued@ == Seq::<crate::pic::PortWrite>::empty(),
            k.pics.acks@ == Seq::<u8>::empty(),
            k.output.events@ == Seq::<OutputEvent>::empty(),
    {
        Kernel {
            stage: BootStage::Start,
            status: ProcessStatus::Running,
            segments: None,
            table: None,
            pics: ChainedPics::new(PIC_1_OFFSET, PIC_2_OFFSET),
            output: OutputLog::new(),
            decoder: keyboard::new_decoder(),
        }
    }
}

/// Remap the interrupt controllers: the third bring-up step, allowed only
/// once the interrupt table is live, so that an interrupt firing right
/// after the unmask finds a valid binding.
///
/// `saved_mask1` and `saved_mask2` are the controllers' mask registers as
/// read from the hardware; the issued remap sequence restores them, so
/// previously enabled lines remain enabled.
pub fn init_controller(k: &mut Kernel, saved_mask1: u8, saved_mask2: u8) -> (r: Result<
    (),
    KernelError,
>)
    requires
        old(k).wf(),
    ensures
        final(k).wf(),
        r is Ok <==> old(k).stage is TableActive,
        r is Err ==> *final(k) == *old(k) && r == Err::<(), KernelError>(KernelError::OutOfOrder),
        r is Ok ==> {
            &&& final(k).stage is ControllerReady
            &&& final(k).pics.initialized
            &&& final(k).pics.mask1 == saved_mask1
            &&& final(k).pics.mask2 == saved_mask2
            &&& final(k).pics.issued@ == old(k).pics.issued@ + init_command_sequence(
                PIC_1_OFFSET,
                PIC_2_OFFSET,
                saved_mask1,
                saved_mask2,
            )
            &&& final(k).pics.acks@ == old(k).pics.acks@
            &&& final(k).status == old(k).status
            &&& final(k).segments == old(k).segments
            &&& final(k).table == old(k).table
            &&& final(k).output.events@ == old(k).output.events@
            &&& final(k).decoder == old(k).decoder
        },
{
    if !(k.stage == BootStage::TableActive) {
        return Err(KernelError::OutOfOrder);
    }
    k.pics.initialize(saved_mask1, saved_mask2);
    k.stage = BootStage::ControllerReady;
    Ok(())
}

/// Unmask CPU interrupts: the last bring-up step, allowed only once the
/// controllers are remapped.
pub fn enable_interrupts(k: &mut Kernel) -> (r: Result<(), KernelError>)
    requires
        old(k).wf(),
    ensures
        final(k).wf(),
        r is Ok <==> old(k).stage is ControllerReady,
        r is Err ==> *final(k) == *old(k) && r == Err::<(), KernelError>(KernelError::OutOfOrder),
        r is Ok ==> {
            &&& final(k).stage is InterruptsEnabled
            &&& final(k).status == old(k).status
            &&& final(k).segments == old(k).segments
            &&& final(k).table == old(k).table
            &&& final(k).pics == old(k).pics
            &&& final(k).output.events@ == old(k).output.events@
            &&& final(k).decoder == old(k).decoder
        },
{
    if !(k.stage == BootStage::ControllerReady) {
        return Err(KernelError::OutOfOrder);
    }
    k.stage = BootStage::InterruptsEnabled;
    Ok(())
}

/// Run the whole bring-up in the single valid order: build and activate the
/// segment descriptors and task-state record, build and activate the
/// interrupt table, remap the controllers, and finally unmask CPU
/// interrupts.
pub fn init(
    k: &mut Kernel,
    stack_base: u64,
    handlers: HandlerAddresses,
    saved_mask1: u8,
    saved_mask2: u8,
) -> (r: Result<(), KernelError>)
    requires
        old(k).wf(),
        stack_base != 0,
        stack_base + crate::gdt::FAULT_STACK_SIZE <= u64::MAX,
        handlers.wf(),
    ensures
        final(k).wf(),
        r is Ok <==> old(k).stage is Start,
        r is Err ==> *final(k) == *old(k) && r == Err::<(), KernelError>(KernelError::OutOfOrder),
        r is Ok ==> {
            &&& final(k).stage is InterruptsEnabled
            &&& final(k).status == old(k).status
            &&& final(k).segments is Some
            &&& final(k).segments.unwrap().0.wf()
            &&& final(k).segments.unwrap().0.task_state.fault_stack_top() == stack_base
                + crate::gdt::FAULT_STACK_SIZE
            &&& final(k).table is Some
            &&& final(k).table.unwrap().built_from(handlers)
            &&& final(k).pics.initialized
            &&& final(k).pics.acks@ == old(k).pics.acks@
            &&& final(k).output.events@ == old(k).output.events@
        },
{
    match gdt::init(k, stack_base) {
        Ok(()) => {},
        Err(e) => {
            return Err(e);
        },
    }
    match interrupts::init_idt(k, handlers) {
        Ok(()) => {},
        Err(e) => {
            return Err(e);
        },
    }
    match init_controller(k, saved_mask1, saved_mask2) {
        Ok(()) => {},
        Err(e) => {
            return Err(e);
        },
    }
    match enable_interrupts(k) {
        Ok(()) => {},
        Err(e) => {
            return Err(e);
        },
    }
    Ok(())
}

/// Exit codes understood by the host supervisor's debug-exit device.
///
/// The shell writes the raw value to a fixed I/O port so a test harness can
/// learn whether the run succeeded without a filesystem or userspace.
#[derive(Debug, Clone, Copy, PartialEq, Eq, Structural)]
pub enum QemuExitCode {
    /// The run completed successfully.
    Success,
    /// At least one failure (or a panic) occurred.
    Failed,
}

impl QemuExitCode {
    /// The raw word written to the exit port for this code.
    pub open spec fn spec_as_u32(self) -> u32 {
        match self {
            QemuExitCode::Success => 0x10,
            QemuExitCode::Failed => 0x11,
        }
    }

    /// Return the raw word for this exit code.
    pub fn as_u32(self) -> (r: u32)
        ensures
            r == self.spec_as_u32(),
    {
        match self {
            QemuExitCode::Success => 0x10,
            QemuExitCode::Failed => 0x11,
        }
    }
}

} // verus!
