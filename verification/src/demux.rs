//! Classification of native events into abstract events.
//!
//! Each native event record is decoded by the caller into a [`RawEvent`]
//! carrying the plain values the classification reads (for key events, the
//! two key symbols already resolved through the platform's symbol table).
//! Classification turns a raw event into at most one abstract event
//! together with the identifier of the window it targets.

use vstd::prelude::*;

use crate::connection::Atoms;
use crate::event::{CloseReason, Event};
use crate::keymap::{keysym_to_key, spec_key_from_keysyms};

verus! {

/// One native event, decoded to the plain values classification reads.
#[derive(Clone, Copy, Debug, PartialEq, Eq, Structural)]
pub enum RawEvent {
    /// A client message: its data format in bits, its message type atom,
    /// the first 32-bit word of its payload, and the window it names.
    ClientMessage { format: u8, message_type: u32, first_word: u32, window: u32 },
    /// An extended-input key press or release, with the key-repeat flag
    /// and the two symbols resolved for the native keycode (base, and
    /// under an implicit shift).
    InputKey {
        extension: u8,
        press: bool,
        repeat: bool,
        keysym: u32,
        shifted_keysym: u32,
        window: u32,
    },
    /// An extended-input focus change.
    InputFocus { extension: u8, focus_in: bool, window: u32 },
    /// An extended-input button press or release (reserved; dropped).
    InputButton { extension: u8, press: bool },
    /// An extended-input pointer motion (reserved; dropped).
    InputMotion { extension: u8 },
    /// An extended-input enter or leave crossing (reserved; dropped).
    InputCrossing { extension: u8, enter: bool },
    /// An extended-input event of an unrecognised sub-type (dropped).
    InputOther { extension: u8 },
    /// Any other native event type (dropped).
    Other,
}

/// The kind of keyboard event a key press or release becomes: a release is
/// always key-up, a press is a repeat when the key-repeat flag is set and
/// a key-down otherwise.
pub open spec fn spec_key_event(press: bool, repeat: bool, key: crate::event::Key) -> Event {
    if !press {
        Event::KeyboardUp(key)
    } else if repeat {
        Event::KeyboardRepeat(key)
    } else {
        Event::KeyboardDown(key)
    }
}

/// What one raw event classifies to, given the connection's atom cache and
/// extended-input opcode: either one abstract event with its target window
/// identifier, or nothing, in which case the native event is dropped.
pub open spec fn spec_classify(atoms: Atoms, xi_opcode: u8, ev: RawEvent) -> Option<(Event, u32)> {
    match ev {
        RawEvent::ClientMessage { format, message_type, first_word, window } => {
            if format == 32 && message_type == atoms.wm_protocols && first_word
                == atoms.wm_delete_window {
                Some((Event::CloseRequest(CloseReason::SystemMenu), window))
            } else {
                None
            }
        },
        RawEvent::InputKey { extension, press, repeat, keysym, shifted_keysym, window } => {
            if extension == xi_opcode {
                match spec_key_from_keysyms(keysym, shifted_keysym) {
                    Some(key) => Some((spec_key_event(press, repeat, key), window)),
                    None => None,
                }
            } else {
                None
            }
        },
        RawEvent::InputFocus { extension, focus_in, window } => {
            if extension == xi_opcode {
                Some((Event::Focus(focus_in), window))
            } else {
                None
            }
        },
        _ => None,
    }
}

/// Classifies one decoded native event against the connection's cached
/// atoms and extension opcode. The caller frees the native record right
/// after this call, classified or not.
pub fn classify(atoms: &Atoms, xi_opcode: u8, ev: &RawEvent) -> (r: Option<(Event, u32)>)
    ensures
        r == spec_classify(*atoms, xi_opcode, *ev),
{
    match *ev {
        RawEvent::ClientMessage { format, message_type, first_word, window } => {
            if format == 32 && message_type == atoms.wm_protocols && first_word
                == atoms.wm_delete_window {
                Some((Event::CloseRequest(CloseReason::SystemMenu), window))
            } else {
                None
            }
        },
        RawEvent::InputKey { extension, press, repeat, keysym, shifted_keysym, window } => {
            if extension == xi_opcode {
                match keysym_to_key(keysym, shifted_keysym) {
                    Some(key) => {
                        let translated = if !press {
                            Event::KeyboardUp(key)
                        } else if repeat {
                            Event::KeyboardRepeat(key)
                        } else {
                            Event::KeyboardDown(key)
                        };
                        Some((translated, window))
                    },
                    None => None,
                }
            } else {
                None
            }
        },
        RawEvent::InputFocus { extension, focus_in, window } => {
            if extension == xi_opcode {
                Some((Event::Focus(focus_in), window))
            } else {
                None
            }
        },
        _ => None,
    }
}

/// Law: the close-request translation fires if and only if a client
/// message has 32-bit format, its type is the cached WM_PROTOCOLS atom and
/// its first payload word is the cached WM_DELETE_WINDOW atom; any single
/// differing field suppresses the event. When it fires it yields exactly a
/// system-menu close request targeted at the message's window field.
pub proof fn lemma_close_request_exact(
    atoms: Atoms,
    xi_opcode: u8,
    format: u8,
    message_type: u32,
    first_word: u32,
    window: u32,
)
    ensures
        spec_classify(
            atoms,
            xi_opcode,
            RawEvent::ClientMessage { format, message_type, first_word, window },
        ).is_some() <==> (format == 32 && message_type == atoms.wm_protocols && first_word
            == atoms.wm_delete_window),
        (format == 32 && message_type == atoms.wm_protocols && first_word
            == atoms.wm_delete_window) ==> spec_classify(
            atoms,
            xi_opcode,
            RawEvent::ClientMessage { format, message_type, first_word, window },
        ) == Some((Event::CloseRequest(CloseReason::SystemMenu), window)),
{
}

} // verus!
