//! The scancode decode state machine, from the `pc_keyboard` crate.
//!
//! Decoding raw scancode bytes into key events is the one piece of outside
//! logic that runs in the middle of the keyboard handler.  The decoder is
//! held as an opaque value and driven through the trusted wrappers below;
//! what the handler guarantees regardless of the decode outcome (one
//! acknowledgment per firing, at most one emission) is proved in
//! [`crate::interrupts`].

use vstd::prelude::*;
use crate::output::KeyOutput;

verus! {

#[verifier::external_type_specification]
#[verifier::external_body]
pub struct ExKeyEvent(pc_keyboard::KeyEvent);

/// The scancode decoder: `pc_keyboard::Keyboard` in the configuration the
/// keyboard handler uses (scancode set 1, US 104-key layout), held opaquely.
/// Verus refuses a declaration of `Keyboard<L, S>` itself because of the
/// outside trait bounds on its generics, so the value lives in a hidden
/// field instead.
#[verifier::external_body]
pub struct Decoder {
    inner: pc_keyboard::Keyboard<pc_keyboard::layouts::Us104Key, pc_keyboard::ScancodeSet1>,
}

/// Relies on `pc_keyboard::Keyboard::new` (with `ScancodeSet1::new` and
/// `HandleControl::Ignore`): a fresh decoder at the start of its scancode
/// protocol, mapping control keys to plain letters.
#[verifier::external_body]
pub fn new_decoder() -> (r: Decoder) {
    Decoder {
        inner: pc_keyboard::Keyboard::new(
            pc_keyboard::ScancodeSet1::new(),
            pc_keyboard::layouts::Us104Key,
            pc_keyboard::HandleControl::Ignore,
        ),
    }
}

/// Relies on `pc_keyboard::Keyboard::add_byte`: advances the decode state
/// machine by one scancode byte and returns a key event exactly when the
/// byte completes a valid sequence.  A malformed sequence is reported as an
/// error, which the handler absorbs: it is collapsed to `None` here, as is
/// an incomplete sequence.
#[verifier::external_body]
pub fn decoder_add_byte(decoder: &mut Decoder, scancode: u8) -> (r: Option<pc_keyboard::KeyEvent>) {
    match decoder.inner.add_byte(scancode) {
        Ok(event) => event,
        Err(_) => None,
    }
}

/// Relies on `pc_keyboard::Keyboard::process_keyevent`: applies the layout
/// and the modifier state to a key event, yielding a printable character, a
/// named key, or nothing (for example on a key release).
#[verifier::external_body]
pub fn decoder_process_event(decoder: &mut Decoder, event: pc_keyboard::KeyEvent) -> (r: Option<
    KeyOutput,
>) {
    match decoder.inner.process_keyevent(event) {
        None => None,
        Some(pc_keyboard::DecodedKey::Unicode(c)) => Some(KeyOutput::Char(c)),
        Some(pc_keyboard::DecodedKey::RawKey(code)) => Some(
            KeyOutput::Named(format!("{:?}", code)),
        ),
    }
}

/// Feed one scancode byte through the decode state machine.
///
/// A byte that completes a valid sequence whose key event decodes under the
/// layout yields the decoded key; an incomplete or malformed sequence, or
/// an event with no decoding, yields nothing.
pub fn decode_scancode(decoder: &mut Decoder, scancode: u8) -> (r: Option<KeyOutput>) {
    match decoder_add_byte(decoder, scancode) {
        Some(event) => decoder_process_event(decoder, event),
        None => None,
    }
}

} // verus!
