//! Model of what the handlers emit to the output collaborator.
//!
//! The real collaborator is a synchronized text sink (screen or serial
//! transport) driven by the unverified shell; the verified handlers record
//! what they decided to emit as a sequence of events, which the shell
//! renders as text.

use vstd::prelude::*;

verus! {

/// Snapshot of the interrupted context, captured on entry to an exception
/// handler and reported to the output collaborator.
#[derive(Debug, Clone, Copy, PartialEq, Eq, Structural)]
pub struct CpuContext {
    /// Address of the instruction the exception interrupted.
    pub instruction_pointer: u64,
    /// Stack pointer at the moment of the exception.
    pub stack_pointer: u64,
    /// Flags register at the moment of the exception.
    pub flags: u64,
}

/// A decoded key, as the keyboard handler reports it.
#[derive(Debug, Clone, PartialEq, Eq)]
pub enum KeyOutput {
    /// A printable character.
    Char(char),
    /// A key with no printable character, by name.
    Named(String),
}

/// One emission to the output collaborator.
#[derive(Debug, Clone, PartialEq, Eq)]
pub enum OutputEvent {
    /// The breakpoint handler's report of the interrupted context.
    BreakpointReport(CpuContext),
    /// The double-fault handler's report of the interrupted context.
    DoubleFaultReport(CpuContext),
    /// The timer handler's visible tick signal.
    Tick,
    /// The keyboard handler's decoded key.
    Key(KeyOutput),
}

/// The ordered log of everything emitted to the output collaborator.
pub struct OutputLog {
    /// Emissions, oldest first.
    pub events: Vec<OutputEvent>,
}

impl OutputLog {
    /// An empty log.
    pub fn new() -> (r: OutputLog)
        ensures
            r.events@ == Seq::<OutputEvent>::empty(),
    {
        OutputLog { events: Vec::new() }
    }

    /// Emit one event.
    pub fn emit(&mut self, event: OutputEvent)
        ensures
            final(self).events@ == old(self).events@.push(event),
    {
        self.events.push(event);
    }
}

} // verus!
