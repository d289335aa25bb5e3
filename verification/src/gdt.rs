//! Model of the segment descriptor set and the task-state record.
//!
//! The builder lays out one flat-model kernel code descriptor and one
//! task-state descriptor whose interrupt stack table carries a dedicated
//! fault stack, and returns the selectors of both.  The unverified shell
//! owns the statically reserved stack region and performs the privileged
//! table loads; this module pins down what the tables contain.

use vstd::prelude::*;
use crate::BootStage;
use crate::Kernel;
use crate::KernelError;

verus! {

/// Interrupt-stack-table slot reserved for the double-fault handler.
///
/// The interrupt table's double-fault entry must name this same slot; the
/// cross-reference is stated by
/// [`crate::interrupts::lemma_double_fault_stack_cross_reference`].
pub const DOUBLE_FAULT_IST_INDEX: u16 = 0;

/// Number of slots in an interrupt stack table.
pub const IST_SLOTS: usize = 7;

/// Size in bytes of the statically reserved fault stack (20 KiB).
pub const FAULT_STACK_SIZE: u64 = 20480;

/// The task-state record: a fixed-size mapping from stack-table slot to an
/// optional top-of-stack address.
pub struct TaskStateRecord {
    /// `interrupt_stack_table[i]` is the top-of-stack address the CPU
    /// switches to when delivering an exception routed to slot `i`.
    pub interrupt_stack_table: Vec<Option<u64>>,
}

impl TaskStateRecord {
    /// Well-formed: seven slots, of which exactly the double-fault slot is
    /// populated, with a non-null top-of-stack address.
    pub open spec fn wf(self) -> bool {
        &&& self.interrupt_stack_table@.len() == IST_SLOTS
        &&& forall|i: int|
            0 <= i < IST_SLOTS && i != DOUBLE_FAULT_IST_INDEX
                ==> self.interrupt_stack_table@[i] is None
        &&& self.interrupt_stack_table@[DOUBLE_FAULT_IST_INDEX as int] is Some
        &&& self.interrupt_stack_table@[DOUBLE_FAULT_IST_INDEX as int].unwrap() != 0
    }

    /// The one populated slot of a well-formed record.
    pub open spec fn populated_slot(self) -> int {
        choose|i: int|
            0 <= i < self.interrupt_stack_table@.len() && self.interrupt_stack_table@[i] is Some
    }

    /// Top-of-stack address of the fault stack.
    pub open spec fn fault_stack_top(self) -> u64 {
        self.interrupt_stack_table@[DOUBLE_FAULT_IST_INDEX as int].unwrap()
    }

    /// In a well-formed record the populated slot is the double-fault slot.
    pub proof fn lemma_populated_slot_is_double_fault_slot(self)
        requires
            self.wf(),
        ensures
            self.populated_slot() == DOUBLE_FAULT_IST_INDEX,
    {
        assert(self.interrupt_stack_table@[DOUBLE_FAULT_IST_INDEX as int] is Some);
    }

    /// Build the record for a fault stack reserved at `stack_base`.
    ///
    /// Stacks grow downward, so the recorded address is the end of the
    /// region.  The region must outlive the kernel; the shell reserves it
    /// statically and hands its base address in.
    pub fn build(stack_base: u64) -> (r: TaskStateRecord)
        requires
            stack_base != 0,
            stack_base + FAULT_STACK_SIZE <= u64::MAX,
        ensures
            r.wf(),
            r.fault_stack_top() == stack_base + FAULT_STACK_SIZE,
    {
        let mut interrupt_stack_table: Vec<Option<u64>> = Vec::new();
        interrupt_stack_table.push(Some(stack_base + FAULT_STACK_SIZE));
        let mut i: usize = 1;
        while i < IST_SLOTS
            invariant
                1 <= i <= IST_SLOTS,
                interrupt_stack_table@.len() == i,
                interrupt_stack_table@[0] == Some((stack_base + FAULT_STACK_SIZE) as u64),
                forall|j: int| 1 <= j < i ==> interrupt_stack_table@[j] is None,
            decreases IST_SLOTS - i,
        {
            interrupt_stack_table.push(None);
            i = i + 1;
        }
        TaskStateRecord { interrupt_stack_table }
    }
}

/// One entry of the segment descriptor set.
#[derive(Debug, Clone, Copy, PartialEq, Eq, Structural)]
pub enum SegmentDescriptor {
    /// Flat-model kernel code segment.
    KernelCode,
    /// Task-state descriptor referring to the task-state record.
    TaskState,
}

/// Opaque handles to the two descriptors, returned at construction time:
/// each selector is the position of its descriptor in the set.
#[derive(Debug, Clone, Copy, PartialEq, Eq, Structural)]
pub struct Selectors {
    /// Selector of the kernel code segment.
    pub code: usize,
    /// Selector of the task-state descriptor.
    pub tss: usize,
}

/// The segment descriptor set together with the task-state record its
/// task-state descriptor refers to.  Once installed, the entries are
/// immutable for the life of the process.
pub struct SegmentSet {
    /// The descriptors, in table order.
    pub descriptors: Vec<SegmentDescriptor>,
    /// The task-state record.
    pub task_state: TaskStateRecord,
}

impl SegmentSet {
    /// Well-formed: exactly the code descriptor then the task-state
    /// descriptor, over a well-formed task-state record.
    pub open spec fn wf(self) -> bool {
        &&& self.descriptors@ =~= seq![SegmentDescriptor::KernelCode, SegmentDescriptor::TaskState]
        &&& self.task_state.wf()
    }
}

/// Build the segment descriptor set and the selectors for its two entries.
///
/// Construction is infallible by design: the tables are fixed-size and
/// nothing is allocated dynamically.  Nothing takes effect on the CPU until
/// the set is activated by the bring-up sequencer.
pub fn build(stack_base: u64) -> (r: (SegmentSet, Selectors))
    requires
        stack_base != 0,
        stack_base + FAULT_STACK_SIZE <= u64::MAX,
    ensures
        r.0.wf(),
        r.0.task_state.fault_stack_top() == stack_base + FAULT_STACK_SIZE,
        r.1.code == 0,
        r.1.tss == 1,
{
    let task_state = TaskStateRecord::build(stack_base);
    let mut descriptors: Vec<SegmentDescriptor> = Vec::new();
    descriptors.push(SegmentDescriptor::KernelCode);
    descriptors.push(SegmentDescriptor::TaskState);
    let set = SegmentSet { descriptors, task_state };
    let selectors = Selectors { code: 0, tss: 1 };
    (set, selectors)
}

/// Build and activate the segment descriptor set and task-state record:
/// the first bring-up step, allowed only on a fresh kernel.  Activation
/// loads the segment table, updates the code-segment register and loads the
/// task register; the shell performs those privileged loads using the
/// returned selectors.  It must happen before any interrupt-table entry
/// that names a stack-table slot can be activated.
pub fn init(k: &mut Kernel, stack_base: u64) -> (r: Result<(), KernelError>)
    requires
        old(k).wf(),
        stack_base != 0,
        stack_base + FAULT_STACK_SIZE <= u64::MAX,
    ensures
        final(k).wf(),
        r is Ok <==> old(k).stage is Start,
        r is Err ==> *final(k) == *old(k) && r == Err::<(), KernelError>(KernelError::OutOfOrder),
        r is Ok ==> {
            &&& final(k).stage is SegmentsActive
            &&& final(k).segments is Some
            &&& final(k).segments.unwrap().0.wf()
            &&& final(k).segments.unwrap().0.task_state.fault_stack_top() == stack_base
                + FAULT_STACK_SIZE
            &&& final(k).segments.unwrap().1 == (Selectors { code: 0, tss: 1 })
            &&& final(k).status == old(k).status
            &&& final(k).table == old(k).table
            &&& final(k).pics == old(k).pics
            &&& final(k).output.events@ == old(k).output.events@
            &&& final(k).decoder == old(k).decoder
        },
{
    if !(k.stage == BootStage::Start) {
        return Err(KernelError::OutOfOrder);
    }
    let built = build(stack_base);
    k.segments = Some(built);
    k.stage = BootStage::SegmentsActive;
    Ok(())
}

} // verus!
