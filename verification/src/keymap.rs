//! Resolution of native key symbols to abstract key codes.
//!
//! The platform's symbol table hands back a base symbol (all modifiers
//! ignored) and the symbol under an implicit shift. The base symbol decides
//! the key; only when it is unmapped is the shifted symbol consulted, which
//! identifies the numeric-keypad operators and digits.

use vstd::prelude::*;

use crate::event::Key;

verus! {

/// The key named by a base symbol and, where the base symbol is unmapped,
/// by the symbol under an implicit shift. An unmapped pair names no key.
pub open spec fn spec_key_from_keysyms(keysym: u32, shifted_keysym: u32) -> Option<Key> {
    match keysym {
        0x2C => Some(Key::OemComma),
        0x2D => Some(Key::OemMinus),
        0x2E => Some(Key::OemPeriod),
        0x30 => Some(Key::Alpha0),
        0x31 => Some(Key::Alpha1),
        0x32 => Some(Key::Alpha2),
        0x33 => Some(Key::Alpha3),
        0x34 => Some(Key::Alpha4),
        0x35 => Some(Key::Alpha5),
        0x36 => Some(Key::Alpha6),
        0x37 => Some(Key::Alpha7),
        0x38 => Some(Key::Alpha8),
        0x39 => Some(Key::Alpha9),
        0x3D => Some(Key::OemPlus),
        0x61 => Some(Key::A),
        0x62 => Some(Key::B),
        0x63 => Some(Key::C),
        0x64 => Some(Key::D),
        0x65 => Some(Key::E),
        0x66 => Some(Key::F),
        0x67 => Some(Key::G),
        0x68 => Some(Key::H),
        0x69 => Some(Key::I),
        0x6A => Some(Key::J),
        0x6B => Some(Key::K),
        0x6C => Some(Key::L),
        0x6D => Some(Key::M),
        0x6E => Some(Key::N),
        0x6F => Some(Key::O),
        0x70 => Some(Key::P),
        0x71 => Some(Key::Q),
        0x72 => Some(Key::R),
        0x73 => Some(Key::S),
        0x74 => Some(Key::T),
        0x75 => Some(Key::U),
        0x76 => Some(Key::V),
        0x77 => Some(Key::W),
        0x78 => Some(Key::X),
        0x79 => Some(Key::Y),
        0x7A => Some(Key::Z),
        0xFF08 => Some(Key::Backspace),
        0xFF09 => Some(Key::Tab),
        0xFF0D => Some(Key::Return),
        0xFF13 => Some(Key::Pause),
        0xFF14 => Some(Key::ScrollLock),
        0xFF1B => Some(Key::Escape),
        0xFF50 => Some(Key::Home),
        0xFF51 => Some(Key::LeftArrow),
        0xFF52 => Some(Key::UpArrow),
        0xFF53 => Some(Key::RightArrow),
        0xFF54 => Some(Key::DownArrow),
        0xFF55 => Some(Key::PageUp),
        0xFF56 => Some(Key::PageDown),
        0xFF57 => Some(Key::End),
        0xFF63 => Some(Key::Insert),
        0xFF7F => Some(Key::NumLock),
        0xFFBE => Some(Key::F1),
        0xFFBF => Some(Key::F2),
        0xFFC0 => Some(Key::F3),
        0xFFC1 => Some(Key::F4),
        0xFFC2 => Some(Key::F5),
        0xFFC3 => Some(Key::F6),
        0xFFC4 => Some(Key::F7),
        0xFFC5 => Some(Key::F8),
        0xFFC6 => Some(Key::F9),
        0xFFC7 => Some(Key::F10),
        0xFFC8 => Some(Key::F11),
        0xFFC9 => Some(Key::F12),
        0xFFCA => Some(Key::F13),
        0xFFCB => Some(Key::F14),
        0xFFCC => Some(Key::F15),
        0xFFCD => Some(Key::F16),
        0xFFCE => Some(Key::F17),
        0xFFCF => Some(Key::F18),
        0xFFD0 => Some(Key::F19),
        0xFFD1 => Some(Key::F20),
        0xFFD2 => Some(Key::F21),
        0xFFD3 => Some(Key::F22),
        0xFFD4 => Some(Key::F23),
        0xFFD5 => Some(Key::F24),
        0xFFE1 => Some(Key::LeftShift),
        0xFFE2 => Some(Key::RightShift),
        0xFFE3 => Some(Key::LeftControl),
        0xFFE4 => Some(Key::RightControl),
        0xFFE5 => Some(Key::CapsLock),
        0xFFE9 => Some(Key::LeftAlt),
        0xFFEB => Some(Key::LeftSuper),
        0xFFEC => Some(Key::RightSuper),
        0xFFFF => Some(Key::Delete),
        _ => match shifted_keysym {
            0xFFAA => Some(Key::KeypadMultiply),
            0xFFAB => Some(Key::KeypadAdd),
            0xFFAC => Some(Key::KeypadSeparator),
            0xFFAD => Some(Key::KeypadSubtract),
            0xFFAE => Some(Key::KeypadDecimal),
            0xFFAF => Some(Key::KeypadDivide),
            0xFFB0 => Some(Key::Keypad0),
            0xFFB1 => Some(Key::Keypad1),
            0xFFB2 => Some(Key::Keypad2),
            0xFFB3 => Some(Key::Keypad3),
            0xFFB4 => Some(Key::Keypad4),
            0xFFB5 => Some(Key::Keypad5),
            0xFFB6 => Some(Key::Keypad6),
            0xFFB7 => Some(Key::Keypad7),
            0xFFB8 => Some(Key::Keypad8),
            0xFFB9 => Some(Key::Keypad9),
            _ => None,
        },
    }
}

/// Maps the pair of symbols resolved for a native key event to an abstract
/// key code, digits, letters, navigation, function keys F1 through F24 and
/// modifiers off the base symbol, keypad operators and digits off the
/// shifted symbol when the base symbol is unmapped.
pub fn keysym_to_key(keysym: u32, shifted_keysym: u32) -> (r: Option<Key>)
    ensures
        r == spec_key_from_keysyms(keysym, shifted_keysym),
{
    match keysym {
        0x2C => Some(Key::OemComma),
        0x2D => Some(Key::OemMinus),
        0x2E => Some(Key::OemPeriod),
        0x30 => Some(Key::Alpha0),
        0x31 => Some(Key::Alpha1),
        0x32 => Some(Key::Alpha2),
        0x33 => Some(Key::Alpha3),
        0x34 => Some(Key::Alpha4),
        0x35 => Some(Key::Alpha5),
        0x36 => Some(Key::Alpha6),
        0x37 => Some(Key::Alpha7),
        0x38 => Some(Key::Alpha8),
        0x39 => Some(Key::Alpha9),
        0x3D => Some(Key::OemPlus),
        0x61 => Some(Key::A),
        0x62 => Some(Key::B),
        0x63 => Some(Key::C),
        0x64 => Some(Key::D),
        0x65 => Some(Key::E),
        0x66 => Some(Key::F),
        0x67 => Some(Key::G),
        0x68 => Some(Key::H),
        0x69 => Some(Key::I),
        0x6A => Some(Key::J),
        0x6B => Some(Key::K),
        0x6C => Some(Key::L),
        0x6D => Some(Key::M),
        0x6E => Some(Key::N),
        0x6F => Some(Key::O),
        0x70 => Some(Key::P),
        0x71 => Some(Key::Q),
        0x72 => Some(Key::R),
        0x73 => Some(Key::S),
        0x74 => Some(Key::T),
        0x75 => Some(Key::U),
        0x76 => Some(Key::V),
        0x77 => Some(Key::W),
        0x78 => Some(Key::X),
        0x79 => Some(Key::Y),
        0x7A => Some(Key::Z),
        0xFF08 => Some(Key::Backspace),
        0xFF09 => Some(Key::Tab),
        0xFF0D => Some(Key::Return),
        0xFF13 => Some(Key::Pause),
        0xFF14 => Some(Key::ScrollLock),
        0xFF1B => Some(Key::Escape),
        0xFF50 => Some(Key::Home),
        0xFF51 => Some(Key::LeftArrow),
        0xFF52 => Some(Key::UpArrow),
        0xFF53 => Some(Key::RightArrow),
        0xFF54 => Some(Key::DownArrow),
        0xFF55 => Some(Key::PageUp),
        0xFF56 => Some(Key::PageDown),
        0xFF57 => Some(Key::End),
        0xFF63 => Some(Key::Insert),
        0xFF7F => Some(Key::NumLock),
        0xFFBE => Some(Key::F1),
        0xFFBF => Some(Key::F2),
        0xFFC0 => Some(Key::F3),
        0xFFC1 => Some(Key::F4),
        0xFFC2 => Some(Key::F5),
        0xFFC3 => Some(Key::F6),
        0xFFC4 => Some(Key::F7),
        0xFFC5 => Some(Key::F8),
        0xFFC6 => Some(Key::F9),
        0xFFC7 => Some(Key::F10),
        0xFFC8 => Some(Key::F11),
        0xFFC9 => Some(Key::F12),
        0xFFCA => Some(Key::F13),
        0xFFCB => Some(Key::F14),
        0xFFCC => Some(Key::F15),
        0xFFCD => Some(Key::F16),
        0xFFCE => Some(Key::F17),
        0xFFCF => Some(Key::F18),
        0xFFD0 => Some(Key::F19),
        0xFFD1 => Some(Key::F20),
        0xFFD2 => Some(Key::F21),
        0xFFD3 => Some(Key::F22),
        0xFFD4 => Some(Key::F23),
        0xFFD5 => Some(Key::F24),
        0xFFE1 => Some(Key::LeftShift),
        0xFFE2 => Some(Key::RightShift),
        0xFFE3 => Some(Key::LeftControl),
        0xFFE4 => Some(Key::RightControl),
        0xFFE5 => Some(Key::CapsLock),
        0xFFE9 => Some(Key::LeftAlt),
        0xFFEB => Some(Key::LeftSuper),
        0xFFEC => Some(Key::RightSuper),
        0xFFFF => Some(Key::Delete),
        _ => match shifted_keysym {
            0xFFAA => Some(Key::KeypadMultiply),
            0xFFAB => Some(Key::KeypadAdd),
            0xFFAC => Some(Key::KeypadSeparator),
            0xFFAD => Some(Key::KeypadSubtract),
            0xFFAE => Some(Key::KeypadDecimal),
            0xFFAF => Some(Key::KeypadDivide),
            0xFFB0 => Some(Key::Keypad0),
            0xFFB1 => Some(Key::Keypad1),
            0xFFB2 => Some(Key::Keypad2),
            0xFFB3 => Some(Key::Keypad3),
            0xFFB4 => Some(Key::Keypad4),
            0xFFB5 => Some(Key::Keypad5),
            0xFFB6 => Some(Key::Keypad6),
            0xFFB7 => Some(Key::Keypad7),
            0xFFB8 => Some(Key::Keypad8),
            0xFFB9 => Some(Key::Keypad9),
            _ => None,
        },
    }
}

} // verus!
