//! Keyboard handler tests: the decode state machine is the real outside
//! decoder, driven through the verified handler.

use chronos::interrupts;
use chronos::interrupts::HandlerAddresses;
use chronos::output::KeyOutput;
use chronos::output::OutputEvent;
use chronos::Kernel;

fn booted_kernel() -> Kernel {
    let mut k = Kernel::new();
    let handlers = HandlerAddresses {
        breakpoint: 0x1000,
        double_fault: 0x2000,
        timer: 0x3000,
        keyboard: 0x4000,
    };
    chronos::init(&mut k, 0x10_0000, handlers, 0xFC, 0xFF).unwrap();
    k
}

#[test]
fn printable_key_down_emits_one_char_and_one_ack() {
    let mut k = booted_kernel();
    // Scancode 0x1E is the complete key-down sequence for the A key in
    // scancode set 1.
    let r = interrupts::keyboard_interrupt_handler(&mut k, 0x1E);
    assert_eq!(r, Ok(true));
    assert_eq!(k.output.events.len(), 1);
    assert_eq!(
        k.output.events[0],
        OutputEvent::Key(KeyOutput::Char('a'))
    );
    // Exactly one acknowledgment, attributed to the keyboard's vector.
    assert_eq!(k.pics.acks, vec![33u8]);
}

#[test]
fn truncated_sequence_emits_nothing_but_still_acks() {
    let mut k = booted_kernel();
    // 0xE0 is the extended-key prefix: an incomplete sequence on its own.
    let r = interrupts::keyboard_interrupt_handler(&mut k, 0xE0);
    assert_eq!(r, Ok(false));
    assert!(k.output.events.is_empty());
    assert_eq!(k.pics.acks, vec![33u8]);
}

#[test]
fn each_firing_acks_exactly_once() {
    let mut k = booted_kernel();
    // A two-byte extended sequence: each byte is one firing, and each
    // firing acknowledges once, whatever the decode outcome.
    assert_eq!(interrupts::keyboard_interrupt_handler(&mut k, 0xE0), Ok(false));
    let _ = interrupts::keyboard_interrupt_handler(&mut k, 0x48);
    assert_eq!(k.pics.acks, vec![33u8, 33]);
}

#[test]
fn key_release_emits_nothing() {
    let mut k = booted_kernel();
    assert_eq!(interrupts::keyboard_interrupt_handler(&mut k, 0x1E), Ok(true));
    // 0x9E is the release of the A key: decoded, but nothing to print.
    assert_eq!(interrupts::keyboard_interrupt_handler(&mut k, 0x9E), Ok(false));
    assert_eq!(k.output.events.len(), 1);
    assert_eq!(k.pics.acks, vec![33u8, 33]);
}

#[test]
fn digits_decode_through_the_layout() {
    let mut k = booted_kernel();
    // Scancode 0x02 is the key-down of the 1 key.
    assert_eq!(interrupts::keyboard_interrupt_handler(&mut k, 0x02), Ok(true));
    assert_eq!(
        k.output.events[0],
        OutputEvent::Key(KeyOutput::Char('1'))
    );
}
