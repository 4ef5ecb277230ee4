//! The scancode decoder: the outside keyboard-protocol crate turns raw
//! scancode bytes into key events and decoded keys. The decoder's state is
//! held opaquely — its type's generic bounds cannot be declared here — and
//! the handful of calls the shell makes are taken on trust; verified code in
//! the editor interprets their results.

use vstd::prelude::*;

verus! {

#[verifier::external_type_specification]
#[verifier::external_body]
pub struct ExKeyEvent(pc_keyboard::KeyEvent);

#[verifier::external_type_specification]
#[verifier::external_body]
pub struct ExDecodedKey(pc_keyboard::DecodedKey);

/// The scancode decoder for the US 104-key layout, scancode set 1. Holds
/// the outside crate's `Keyboard` state.
#[verifier::external_body]
pub struct KeyDecoder {
    inner: pc_keyboard::Keyboard<pc_keyboard::layouts::Us104Key, pc_keyboard::ScancodeSet1>,
}

/// What the decoder handed back, in the library's terms: a printable (or
/// control) character, or a raw key number for keys with no character.
#[derive(Debug, Clone, Copy, PartialEq, Eq, Structural)]
pub enum KeyInput {
    Text(char),
    Raw(u8),
}

/// Relies on pc_keyboard::Keyboard::new: a fresh decoder for the US 104-key
/// layout and scancode set 1, passing control characters through unchanged.
#[verifier::external_body]
pub fn kb_new() -> (kb: KeyDecoder) {
    KeyDecoder {
        inner: pc_keyboard::Keyboard::new(
            pc_keyboard::layouts::Us104Key,
            pc_keyboard::ScancodeSet1,
            pc_keyboard::HandleControl::Ignore,
        ),
    }
}

/// Relies on pc_keyboard::Keyboard::add_byte: feeds one scancode byte into
/// the decoder; a completed key event comes back, an incomplete sequence or
/// a protocol error does not.
#[verifier::external_body]
pub(crate) fn kb_add_byte(kb: &mut KeyDecoder, byte: u8) -> (r: Option<pc_keyboard::KeyEvent>) {
    match kb.inner.add_byte(byte) {
        Ok(Some(event)) => Some(event),
        Ok(None) => None,
        Err(_) => None,
    }
}

/// Relies on pc_keyboard::Keyboard::process_keyevent: turns a key event
/// into a decoded key, tracking modifier state; key releases and bare
/// modifiers decode to nothing.
#[verifier::external_body]
pub(crate) fn kb_process(kb: &mut KeyDecoder, event: pc_keyboard::KeyEvent) -> (r: Option<
    pc_keyboard::DecodedKey,
>) {
    kb.inner.process_keyevent(event)
}

/// Relies on pc_keyboard::DecodedKey's two variants: a unicode character or
/// a raw key, carried over as the key code's number.
#[verifier::external_body]
pub(crate) fn kb_decoded_input(key: pc_keyboard::DecodedKey) -> (r: KeyInput) {
    match key {
        pc_keyboard::DecodedKey::Unicode(c) => KeyInput::Text(c),
        pc_keyboard::DecodedKey::RawKey(code) => KeyInput::Raw(code as u8),
    }
}

} // verus!
