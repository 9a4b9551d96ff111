use ramen::connection::Atoms;
use ramen::demux::{classify, RawEvent};
use ramen::event::{CloseReason, Event, Key};
use ramen::keymap::keysym_to_key;

fn test_atoms() -> Atoms {
    Atoms {
        wm_protocols: 200,
        wm_delete_window: 201,
        net_wm_name: 202,
        utf8_string: 203,
        net_wm_pid: 204,
        wm_client_machine: 205,
    }
}

fn client_message(format: u8, message_type: u32, first_word: u32) -> RawEvent {
    RawEvent::ClientMessage {
        format,
        message_type,
        first_word,
        window: 40,
    }
}

#[test]
fn close_request_fires_only_on_exact_match() {
    let atoms = test_atoms();

    // All three fields right: the translation fires.
    assert_eq!(
        classify(&atoms, 0, &client_message(32, 200, 201)),
        Some((Event::CloseRequest(CloseReason::SystemMenu), 40))
    );

    // Any single differing field suppresses the event.
    assert_eq!(classify(&atoms, 0, &client_message(8, 200, 201)), None);
    assert_eq!(classify(&atoms, 0, &client_message(16, 200, 201)), None);
    assert_eq!(classify(&atoms, 0, &client_message(32, 199, 201)), None);
    assert_eq!(classify(&atoms, 0, &client_message(32, 200, 200)), None);
}

#[test]
fn key_press_release_and_repeat_forms() {
    let atoms = test_atoms();
    let press = RawEvent::InputKey {
        extension: 3,
        press: true,
        repeat: false,
        keysym: 0x61,
        shifted_keysym: 0x41,
        window: 9,
    };
    let repeat = RawEvent::InputKey {
        extension: 3,
        press: true,
        repeat: true,
        keysym: 0x61,
        shifted_keysym: 0x41,
        window: 9,
    };
    let release = RawEvent::InputKey {
        extension: 3,
        press: false,
        repeat: false,
        keysym: 0x61,
        shifted_keysym: 0x41,
        window: 9,
    };
    assert_eq!(
        classify(&atoms, 3, &press),
        Some((Event::KeyboardDown(Key::A), 9))
    );
    assert_eq!(
        classify(&atoms, 3, &repeat),
        Some((Event::KeyboardRepeat(Key::A), 9))
    );
    assert_eq!(
        classify(&atoms, 3, &release),
        Some((Event::KeyboardUp(Key::A), 9))
    );
    // A key event from another extension is left alone.
    assert_eq!(classify(&atoms, 4, &press), None);
}

#[test]
fn base_symbol_decides_the_key() {
    // "a" with no shift is the letter A.
    assert_eq!(keysym_to_key(0x61, 0), Some(Key::A));
    assert_eq!(keysym_to_key(0x7A, 0), Some(Key::Z));
    assert_eq!(keysym_to_key(0x30, 0), Some(Key::Alpha0));
    assert_eq!(keysym_to_key(0x39, 0), Some(Key::Alpha9));
    assert_eq!(keysym_to_key(0x2C, 0), Some(Key::OemComma));
    assert_eq!(keysym_to_key(0x2D, 0), Some(Key::OemMinus));
    assert_eq!(keysym_to_key(0x2E, 0), Some(Key::OemPeriod));
    assert_eq!(keysym_to_key(0x3D, 0), Some(Key::OemPlus));
    assert_eq!(keysym_to_key(0xFF08, 0), Some(Key::Backspace));
    assert_eq!(keysym_to_key(0xFF1B, 0), Some(Key::Escape));
    assert_eq!(keysym_to_key(0xFFBE, 0), Some(Key::F1));
    assert_eq!(keysym_to_key(0xFFD5, 0), Some(Key::F24));
    assert_eq!(keysym_to_key(0xFFE1, 0), Some(Key::LeftShift));
    assert_eq!(keysym_to_key(0xFFFF, 0), Some(Key::Delete));
}

#[test]
fn shifted_symbol_decides_keypad_keys() {
    // An unmapped base symbol with a keypad shifted symbol names the
    // keypad key.
    assert_eq!(keysym_to_key(0, 0xFFB0), Some(Key::Keypad0));
    assert_eq!(keysym_to_key(0, 0xFFB9), Some(Key::Keypad9));
    assert_eq!(keysym_to_key(0, 0xFFAA), Some(Key::KeypadMultiply));
    assert_eq!(keysym_to_key(0, 0xFFAB), Some(Key::KeypadAdd));
    assert_eq!(keysym_to_key(0, 0xFFAD), Some(Key::KeypadSubtract));
    assert_eq!(keysym_to_key(0, 0xFFAF), Some(Key::KeypadDivide));
}

#[test]
fn unmapped_symbol_pairs_name_no_key() {
    assert_eq!(keysym_to_key(0, 0), None);
    assert_eq!(keysym_to_key(0, 0x61), None);
    assert_eq!(keysym_to_key(0x20, 0x20), None);
    // The mapped base symbol wins even with a keypad shifted symbol.
    assert_eq!(keysym_to_key(0x61, 0xFFB0), Some(Key::A));
}
