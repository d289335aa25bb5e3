//! Handler state-machine tests: breakpoint, double fault, timer.

use chronos::interrupts;
use chronos::interrupts::HandlerAddresses;
use chronos::output::CpuContext;
use chronos::output::OutputEvent;
use chronos::Kernel;
use chronos::KernelError;
use chronos::ProcessStatus;

fn booted_kernel() -> Kernel {
    let mut k = Kernel::new();
    let handlers = HandlerAddresses {
        breakpoint: 0x1000,
        double_fault: 0x2000,
        timer: 0x3000,
        keyboard: 0x4000,
    };
    chronos::init(&mut k, 0x10_0000, handlers, 0xFC, 0xFF).unwrap();
    k
}

fn context() -> CpuContext {
    CpuContext { instruction_pointer: 0xCAFE, stack_pointer: 0xBEEF, flags: 0x202 }
}

#[test]
fn breakpoint_reports_and_resumes() {
    let mut k = booted_kernel();
    let before = k.output.events.len();
    let r = interrupts::breakpoint_handler(&mut k, context());
    assert!(r.is_ok());
    // The process stays alive and execution resumes.
    assert_eq!(k.status, ProcessStatus::Running);
    assert_eq!(k.output.events.len(), before + 1);
    assert_eq!(
        k.output.events.last(),
        Some(&OutputEvent::BreakpointReport(context()))
    );
    // Still alive: a later event is deliverable.
    assert!(interrupts::timer_interrupt_handler(&mut k).is_ok());
}

#[test]
fn double_fault_halts_and_never_returns() {
    let mut k = booted_kernel();
    let r = interrupts::double_fault_handler(&mut k, context());
    assert!(r.is_ok());
    assert_eq!(k.status, ProcessStatus::Halted);
    assert_eq!(
        k.output.events.last(),
        Some(&OutputEvent::DoubleFaultReport(context()))
    );
    // The halted state is terminal: nothing is ever delivered again.
    assert_eq!(
        interrupts::timer_interrupt_handler(&mut k),
        Err(KernelError::NotDeliverable)
    );
    assert_eq!(
        interrupts::keyboard_interrupt_handler(&mut k, 0x1E),
        Err(KernelError::NotDeliverable)
    );
    assert_eq!(
        interrupts::breakpoint_handler(&mut k, context()),
        Err(KernelError::NotDeliverable)
    );
    assert_eq!(k.status, ProcessStatus::Halted);
}

#[test]
fn handlers_refused_before_interrupts_enabled() {
    let mut k = Kernel::new();
    assert_eq!(
        interrupts::timer_interrupt_handler(&mut k),
        Err(KernelError::NotDeliverable)
    );
    assert_eq!(
        interrupts::breakpoint_handler(&mut k, context()),
        Err(KernelError::NotDeliverable)
    );
    assert!(k.output.events.is_empty());
    assert!(k.pics.acks.is_empty());
}

#[test]
fn n_timer_firings_send_n_timer_acks() {
    let mut k = booted_kernel();
    let n = 5;
    for _ in 0..n {
        assert!(interrupts::timer_interrupt_handler(&mut k).is_ok());
    }
    // Exactly n acknowledgments, each attributed to the timer's vector.
    assert_eq!(k.pics.acks, vec![32u8; n]);
    let ticks = k
        .output
        .events
        .iter()
        .filter(|e| **e == OutputEvent::Tick)
        .count();
    assert_eq!(ticks, n);
}

#[test]
fn run_timer_firings_matches_individual_firings() {
    let mut k = booted_kernel();
    assert!(interrupts::run_timer_firings(&mut k, 3).is_ok());
    assert_eq!(k.pics.acks, vec![32u8, 32, 32]);
    assert_eq!(k.output.events.len(), 3);
}
