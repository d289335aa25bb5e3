//! Model of the interrupt descriptor table and the IRQ vector assignment.
//!
//! The table is a fixed-size mapping from vector number to an optional
//! handler binding.  Exactly four vectors are bound: the breakpoint and
//! double-fault exceptions, and the timer and keyboard IRQ lines of the
//! remapped interrupt controllers.  The double-fault binding names the
//! dedicated stack slot of the task-state record; that cross-reference is
//! the most safety-critical invariant of the whole bring-up.

use vstd::prelude::*;
use crate::gdt::DOUBLE_FAULT_IST_INDEX;
use crate::gdt::TaskStateRecord;
use crate::keyboard;
use crate::output::CpuContext;
use crate::output::OutputEvent;
use crate::pic::eoi_command_sequence;
use crate::BootStage;
use crate::Kernel;
use crate::KernelError;
use crate::ProcessStatus;

verus! {

/// First vector of the primary interrupt controller after the remap.
///
/// Vectors 0 to 31 are reserved for CPU exceptions; remapping the
/// controllers to start at 32 avoids any collision with them.
pub const PIC_1_OFFSET: u8 = 32;

/// First vector of the secondary controller, chained right behind the
/// primary's eight vectors.
pub const PIC_2_OFFSET: u8 = PIC_1_OFFSET + 8;

/// Vector of the breakpoint exception.
pub const BREAKPOINT_VECTOR: usize = 3;

/// Vector of the double-fault exception.
pub const DOUBLE_FAULT_VECTOR: usize = 8;

/// Number of vectors in the interrupt table.
pub const TABLE_SIZE: usize = 256;

/// Table vectors of the hardware interrupts delivered by the remapped
/// controllers: the two IRQ lines get two consecutive vectors starting at
/// the primary controller's offset.
#[derive(Debug, Clone, Copy, PartialEq, Eq, Structural)]
pub enum InterruptIndex {
    /// IRQ line 0: the timer.
    Timer,
    /// IRQ line 1: the keyboard.
    Keyboard,
}

impl InterruptIndex {
    /// The vector number of this interrupt.
    pub open spec fn spec_as_u8(self) -> u8 {
        match self {
            InterruptIndex::Timer => PIC_1_OFFSET,
            InterruptIndex::Keyboard => (PIC_1_OFFSET + 1) as u8,
        }
    }

    /// Return this interrupt's vector number.
    pub fn as_u8(self) -> (r: u8)
        ensures
            r == self.spec_as_u8(),
    {
        match self {
            InterruptIndex::Timer => PIC_1_OFFSET,
            InterruptIndex::Keyboard => PIC_1_OFFSET + 1,
        }
    }

    /// Return this interrupt's vector number, widened for indexing.
    pub fn as_usize(self) -> (r: usize)
        ensures
            r == self.spec_as_u8(),
    {
        self.as_u8() as usize
    }
}

/// The handler addresses the table is built over.  The shell passes the
/// addresses of its real interrupt-time entry points.
#[derive(Debug, Clone, Copy, PartialEq, Eq, Structural)]
pub struct HandlerAddresses {
    /// Entry point of the breakpoint handler.
    pub breakpoint: u64,
    /// Entry point of the double-fault handler.
    pub double_fault: u64,
    /// Entry point of the timer handler.
    pub timer: u64,
    /// Entry point of the keyboard handler.
    pub keyboard: u64,
}

impl HandlerAddresses {
    /// Every entry point is non-null.
    pub open spec fn wf(self) -> bool {
        &&& self.breakpoint != 0
        &&& self.double_fault != 0
        &&& self.timer != 0
        &&& self.keyboard != 0
    }
}

/// One vector's binding: a handler address and, where required, the
/// stack-table slot the CPU must switch to before running it.
#[derive(Debug, Clone, Copy, PartialEq, Eq, Structural)]
pub struct HandlerBinding {
    /// Address of the handler's entry point.
    pub handler: u64,
    /// Stack-table slot to switch to, or `None` to stay on the active stack.
    pub stack_index: Option<u16>,
}

/// The interrupt table: a fixed-size mapping from vector number to an
/// optional handler binding.  Unused vectors stay unbound.
pub struct InterruptTable {
    /// `entries[v]` is the binding of vector `v`.
    pub entries: Vec<Option<HandlerBinding>>,
}

impl InterruptTable {
    /// The exact table the builder produces from `h`: the breakpoint vector
    /// bound with no stack override, the double-fault vector bound to the
    /// dedicated stack slot, the timer and keyboard vectors bound to their
    /// IRQ handlers, and every other vector unbound.
    pub open spec fn built_from(self, h: HandlerAddresses) -> bool {
        &&& self.entries@.len() == TABLE_SIZE
        &&& self.entries@[BREAKPOINT_VECTOR as int] == Some(
            (HandlerBinding { handler: h.breakpoint, stack_index: None }),
        )
        &&& self.entries@[DOUBLE_FAULT_VECTOR as int] == Some(
            (HandlerBinding { handler: h.double_fault, stack_index: Some(DOUBLE_FAULT_IST_INDEX) }),
        )
        &&& self.entries@[PIC_1_OFFSET as int] == Some(
            (HandlerBinding { handler: h.timer, stack_index: None }),
        )
        &&& self.entries@[PIC_1_OFFSET + 1 as int] == Some(
            (HandlerBinding { handler: h.keyboard, stack_index: None }),
        )
        &&& forall|v: int|
            0 <= v < TABLE_SIZE && v != BREAKPOINT_VECTOR && v != DOUBLE_FAULT_VECTOR && v
                != PIC_1_OFFSET && v != PIC_1_OFFSET + 1 ==> self.entries@[v] is None
    }

    /// Build the full table over the given handler entry points.
    /// Construction is pure and infallible; nothing reaches the CPU until
    /// the table is activated by the bring-up sequencer.
    pub fn build(h: HandlerAddresses) -> (t: InterruptTable)
        requires
            h.wf(),
        ensures
            t.built_from(h),
    {
        let mut entries: Vec<Option<HandlerBinding>> = Vec::new();
        let mut i: usize = 0;
        while i < TABLE_SIZE
            invariant
                i <= TABLE_SIZE,
                entries@.len() == i,
                forall|v: int| 0 <= v < i ==> entries@[v] is None,
            decreases TABLE_SIZE - i,
        {
            entries.push(None);
            i = i + 1;
        }
        entries[BREAKPOINT_VECTOR] = Some(HandlerBinding { handler: h.breakpoint, stack_index: None });
        entries[DOUBLE_FAULT_VECTOR] = Some(
            HandlerBinding { handler: h.double_fault, stack_index: Some(DOUBLE_FAULT_IST_INDEX) },
        );
        entries[PIC_1_OFFSET as usize] = Some(HandlerBinding { handler: h.timer, stack_index: None });
        entries[PIC_1_OFFSET as usize + 1] = Some(
            HandlerBinding { handler: h.keyboard, stack_index: None },
        );
        InterruptTable { entries }
    }
}

/// Every vector bound in a built table carries a non-null handler address,
/// and the double-fault binding's stack-table slot equals the task-state
/// record's populated slot.
pub proof fn lemma_double_fault_stack_cross_reference(
    t: InterruptTable,
    tss: TaskStateRecord,
    h: HandlerAddresses,
)
    requires
        t.built_from(h),
        h.wf(),
        tss.wf(),
    ensures
        forall|v: int|
            0 <= v < TABLE_SIZE && t.entries@[v] is Some ==> t.entries@[v].unwrap().handler != 0,
        t.entries@[DOUBLE_FAULT_VECTOR as int].unwrap().stack_index == Some(
            (tss.populated_slot() as u16),
        ),
{
    tss.lemma_populated_slot_is_double_fault_slot();
    assert forall|v: int| 0 <= v < TABLE_SIZE && t.entries@[v] is Some implies t.entries@[v].unwrap().handler
        != 0 by {
        if v != BREAKPOINT_VECTOR && v != DOUBLE_FAULT_VECTOR && v != PIC_1_OFFSET && v
            != PIC_1_OFFSET + 1 {
            assert(t.entries@[v] is None);
        }
    }
}

/// Build the interrupt table and activate it: the second bring-up step,
/// allowed only once the segments and task-state record are live, because
/// the double-fault binding names a stack-table slot that is meaningful
/// only then.  The shell performs the privileged table load.
pub fn init_idt(k: &mut Kernel, handlers: HandlerAddresses) -> (r: Result<(), KernelError>)
    requires
        old(k).wf(),
        handlers.wf(),
    ensures
        final(k).wf(),
        r is Ok <==> old(k).stage is SegmentsActive,
        r is Err ==> *final(k) == *old(k) && r == Err::<(), KernelError>(KernelError::OutOfOrder),
        r is Ok ==> {
            &&& final(k).stage is TableActive
            &&& final(k).table is Some
            &&& final(k).table.unwrap().built_from(handlers)
            &&& final(k).status == old(k).status
            &&& final(k).segments == old(k).segments
            &&& final(k).pics == old(k).pics
            &&& final(k).output.events@ == old(k).output.events@
            &&& final(k).decoder == old(k).decoder
        },
{
    if !(k.stage == BootStage::SegmentsActive) {
        return Err(KernelError::OutOfOrder);
    }
    let table = InterruptTable::build(handlers);
    k.table = Some(table);
    k.stage = BootStage::TableActive;
    Ok(())
}

/// Breakpoint exception handler.
///
/// Reports the interrupted context to the output collaborator and resumes:
/// the process stays running and execution continues past the trap.
/// Deliverable only while the table is live and the process is running.
pub fn breakpoint_handler(k: &mut Kernel, context: CpuContext) -> (r: Result<(), KernelError>)
    requires
        old(k).wf(),
    ensures
        final(k).wf(),
        r is Ok <==> old(k).can_deliver_exception(),
        r is Err ==> *final(k) == *old(k) && r == Err::<(), KernelError>(
            KernelError::NotDeliverable,
        ),
        r is Ok ==> {
            &&& final(k).status is Running
            &&& final(k).output.events@ == old(k).output.events@.push(
                OutputEvent::BreakpointReport(context),
            )
            &&& final(k).stage == old(k).stage
            &&& final(k).status == old(k).status
            &&& final(k).segments == old(k).segments
            &&& final(k).table == old(k).table
            &&& final(k).pics == old(k).pics
            &&& final(k).decoder == old(k).decoder
        },
{
    if !table_live(k.stage) || !(k.status == ProcessStatus::Running) {
        return Err(KernelError::NotDeliverable);
    }
    k.output.emit(OutputEvent::BreakpointReport(context));
    Ok(())
}

/// Double-fault handler.
///
/// A double fault means the normal exception-handling path itself failed;
/// it is unrecoverable by design.  The handler reports the interrupted
/// context and moves the process to the terminal halted state: execution
/// never resumes, and no further event is ever delivered.
pub fn double_fault_handler(k: &mut Kernel, context: CpuContext) -> (r: Result<(), KernelError>)
    requires
        old(k).wf(),
    ensures
        final(k).wf(),
        r is Ok <==> old(k).can_deliver_exception(),
        r is Err ==> *final(k) == *old(k) && r == Err::<(), KernelError>(
            KernelError::NotDeliverable,
        ),
        r is Ok ==> {
            &&& final(k).status is Halted
            &&& final(k).output.events@ == old(k).output.events@.push(
                OutputEvent::DoubleFaultReport(context),
            )
            &&& final(k).stage == old(k).stage
            &&& final(k).segments == old(k).segments
            &&& final(k).table == old(k).table
            &&& final(k).pics == old(k).pics
            &&& final(k).decoder == old(k).decoder
        },
{
    if !table_live(k.stage) || !(k.status == ProcessStatus::Running) {
        return Err(KernelError::NotDeliverable);
    }
    k.output.emit(OutputEvent::DoubleFaultReport(context));
    k.status = ProcessStatus::Halted;
    Ok(())
}

/// Once the process has halted, nothing is deliverable any more: the
/// halted state is terminal.
pub proof fn lemma_halted_is_terminal(k: Kernel)
    requires
        k.status is Halted,
    ensures
        !k.can_deliver_exception(),
        !k.can_deliver_irq(),
{
}

/// Timer interrupt handler.
///
/// Each firing emits the visible tick signal and then acknowledges the
/// timer's vector to the controller driver, exactly once, in that order.
pub fn timer_interrupt_handler(k: &mut Kernel) -> (r: Result<(), KernelError>)
    requires
        old(k).wf(),
    ensures
        final(k).wf(),
        r is Ok <==> old(k).can_deliver_irq(),
        r is Err ==> *final(k) == *old(k) && r == Err::<(), KernelError>(
            KernelError::NotDeliverable,
        ),
        r is Ok ==> {
            &&& final(k).output.events@ == old(k).output.events@.push(OutputEvent::Tick)
            &&& final(k).pics.acks@ == old(k).pics.acks@.push(InterruptIndex::Timer.spec_as_u8())
            &&& final(k).pics.issued@ == old(k).pics.issued@ + eoi_command_sequence(false)
            &&& pics_config_unchanged(old(k).pics, final(k).pics)
            &&& final(k).stage == old(k).stage
            &&& final(k).status == old(k).status
            &&& final(k).segments == old(k).segments
            &&& final(k).table == old(k).table
            &&& final(k).decoder == old(k).decoder
        },
{
    if !(k.stage == BootStage::InterruptsEnabled) || !(k.status == ProcessStatus::Running) {
        return Err(KernelError::NotDeliverable);
    }
    k.output.emit(OutputEvent::Tick);
    k.pics.notify_end_of_interrupt(InterruptIndex::Timer.as_u8());
    Ok(())
}

/// Keyboard interrupt handler.
///
/// The shell reads one byte from the keyboard data port and hands it in.
/// The byte is fed to the scancode decoder; a completed, decodable key
/// event is emitted to the output collaborator, and an incomplete or
/// malformed sequence is silently absorbed.  Either way the keyboard's
/// vector is acknowledged exactly once, after the work is done.  Returns
/// whether a key was emitted.
pub fn keyboard_interrupt_handler(k: &mut Kernel, scancode: u8) -> (r: Result<bool, KernelError>)
    requires
        old(k).wf(),
    ensures
        final(k).wf(),
        r is Ok <==> old(k).can_deliver_irq(),
        r is Err ==> *final(k) == *old(k) && r == Err::<bool, KernelError>(
            KernelError::NotDeliverable,
        ),
        r is Ok ==> {
            &&& final(k).pics.acks@ == old(k).pics.acks@.push(InterruptIndex::Keyboard.spec_as_u8())
            &&& final(k).pics.issued@ == old(k).pics.issued@ + eoi_command_sequence(false)
            &&& pics_config_unchanged(old(k).pics, final(k).pics)
            &&& (if r.unwrap() {
                emitted_one_key(old(k).output.events@, final(k).output.events@)
            } else {
                final(k).output.events@ == old(k).output.events@
            })
            &&& final(k).stage == old(k).stage
            &&& final(k).status == old(k).status
            &&& final(k).segments == old(k).segments
            &&& final(k).table == old(k).table
        },
{
    if !(k.stage == BootStage::InterruptsEnabled) || !(k.status == ProcessStatus::Running) {
        return Err(KernelError::NotDeliverable);
    }
    let decoded = keyboard::decode_scancode(&mut k.decoder, scancode);
    let emitted: bool;
    match decoded {
        Some(key) => {
            k.output.emit(OutputEvent::Key(key));
            emitted = true;
        },
        None => {
            emitted = false;
        },
    }
    k.pics.notify_end_of_interrupt(InterruptIndex::Keyboard.as_u8());
    if emitted {
        proof {
            let before = old(k).output.events@;
            assert(k.output.events@.subrange(0, before.len() as int) =~= before);
        }
    }
    Ok(emitted)
}

/// The output log grew by exactly one event, a decoded key.
pub open spec fn emitted_one_key(before: Seq<OutputEvent>, after: Seq<OutputEvent>) -> bool {
    &&& after.len() == before.len() + 1
    &&& after.subrange(0, before.len() as int) == before
    &&& after.last() is Key
}

/// The configuration registers of the controller driver: everything but
/// the issued-command and acknowledgment logs.
pub open spec fn pics_config_unchanged(
    before: crate::pic::ChainedPics,
    after: crate::pic::ChainedPics,
) -> bool {
    &&& after.offset1 == before.offset1
    &&& after.offset2 == before.offset2
    &&& after.mask1 == before.mask1
    &&& after.mask2 == before.mask2
    &&& after.initialized == before.initialized
}

/// Is the interrupt table live at this stage?
pub open spec fn spec_table_live(stage: BootStage) -> bool {
    ||| stage is TableActive
    ||| stage is ControllerReady
    ||| stage is InterruptsEnabled
}

/// Is the interrupt table live at this stage?
fn table_live(stage: BootStage) -> (r: bool)
    ensures
        r == spec_table_live(stage),
{
    stage == BootStage::TableActive || stage == BootStage::ControllerReady || stage
        == BootStage::InterruptsEnabled
}

/// Delivering `n` consecutive timer firings sends exactly `n`
/// acknowledgments to the controller driver, each attributed to the
/// timer's vector, and emits exactly `n` tick signals.
pub fn run_timer_firings(k: &mut Kernel, n: usize) -> (r: Result<(), KernelError>)
    requires
        old(k).wf(),
    ensures
        final(k).wf(),
        r is Ok <==> old(k).can_deliver_irq(),
        r is Err ==> *final(k) == *old(k) && r == Err::<(), KernelError>(
            KernelError::NotDeliverable,
        ),
        r is Ok ==> {
            &&& final(k).pics.acks@ == old(k).pics.acks@ + Seq::new(
                n as nat,
                |i: int| InterruptIndex::Timer.spec_as_u8(),
            )
            &&& final(k).output.events@ == old(k).output.events@ + Seq::new(
                n as nat,
                |i: int| OutputEvent::Tick,
            )
            &&& final(k).pics.issued@.len() == old(k).pics.issued@.len() + n
            &&& pics_config_unchanged(old(k).pics, final(k).pics)
            &&& final(k).stage == old(k).stage
            &&& final(k).status == old(k).status
            &&& final(k).segments == old(k).segments
            &&& final(k).table == old(k).table
            &&& final(k).decoder == old(k).decoder
        },
{
    if !(k.stage == BootStage::InterruptsEnabled) || !(k.status == ProcessStatus::Running) {
        return Err(KernelError::NotDeliverable);
    }
    let mut fired: usize = 0;
    while fired < n
        invariant
            k.wf(),
            k.can_deliver_irq(),
            fired <= n,
            k.pics.acks@ == old(k).pics.acks@ + Seq::new(
                fired as nat,
                |i: int| InterruptIndex::Timer.spec_as_u8(),
            ),
            k.output.events@ == old(k).output.events@ + Seq::new(
                fired as nat,
                |i: int| OutputEvent::Tick,
            ),
            k.pics.issued@.len() == old(k).pics.issued@.len() + fired,
            pics_config_unchanged(old(k).pics, k.pics),
            k.stage == old(k).stage,
            k.status == old(k).status,
            k.segments == old(k).segments,
            k.table == old(k).table,
            k.decoder == old(k).decoder,
        decreases n - fired,
    {
        let ghost before_acks = k.pics.acks@;
        let ghost before_events = k.output.events@;
        let result = timer_interrupt_handler(k);
        proof {
            assert(result is Ok);
            assert(k.pics.acks@ =~= old(k).pics.acks@ + Seq::new(
                (fired + 1) as nat,
                |i: int| InterruptIndex::Timer.spec_as_u8(),
            ));
            assert(k.output.events@ =~= old(k).output.events@ + Seq::new(
                (fired + 1) as nat,
                |i: int| OutputEvent::Tick,
            ));
        }
        fired = fired + 1;
    }
    Ok(())
}

} // verus!
