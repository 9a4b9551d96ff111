use ramen::connection::{Atoms, Connection};
use ramen::demux::{classify, RawEvent};
use ramen::event::{CloseReason, Event, Key};
use ramen::window::Window;

fn test_atoms() -> Atoms {
    Atoms {
        wm_protocols: 100,
        wm_delete_window: 101,
        net_wm_name: 102,
        utf8_string: 103,
        net_wm_pid: 104,
        wm_client_machine: 105,
    }
}

fn key_press(window: u32, keysym: u32) -> RawEvent {
    RawEvent::InputKey {
        extension: 7,
        press: true,
        repeat: false,
        keysym,
        shifted_keysym: 0,
        window,
    }
}

#[test]
fn has_send_sync() {
    fn test<T: Send + Sync>() {}

    test::<ramen::error::Error>();
    test::<ramen::event::Event>();
    test::<ramen::window::Window>();
}

#[test]
fn event_for_other_window_waits_in_its_mailbox() {
    // Two windows exist; a key press targets B while A is polling. A's
    // buffer stays empty for that event; B's next poll yields exactly it.
    let mut conn = Connection::new(test_atoms(), 7, None);
    let mut a = Window::new(&mut conn, 1);
    let mut b = Window::new(&mut conn, 2);

    a.poll_events(&mut conn, vec![key_press(2, 0x61)]);
    assert!(a.events().is_empty());

    b.poll_events(&mut conn, Vec::new());
    assert_eq!(b.events().as_slice(), &[Event::KeyboardDown(Key::A)]);

    // The mailbox was emptied by the poll: polling again yields nothing.
    b.poll_events(&mut conn, Vec::new());
    assert!(b.events().is_empty());
}

#[test]
fn event_for_polling_window_lands_directly() {
    let mut conn = Connection::new(test_atoms(), 7, None);
    let mut a = Window::new(&mut conn, 1);
    let mut b = Window::new(&mut conn, 2);

    a.poll_events(&mut conn, vec![key_press(1, 0x62)]);
    assert_eq!(a.events().as_slice(), &[Event::KeyboardDown(Key::B)]);

    // Nothing leaked into the other window's mailbox.
    b.poll_events(&mut conn, Vec::new());
    assert!(b.events().is_empty());
}

#[test]
fn event_for_unknown_window_is_dropped() {
    let mut conn = Connection::new(test_atoms(), 7, None);
    let mut a = Window::new(&mut conn, 1);

    a.poll_events(&mut conn, vec![key_press(999, 0x61)]);
    assert!(a.events().is_empty());
    assert!(!conn.is_live(999));

    // A window created later under the same identifier starts clean.
    let mut late = Window::new(&mut conn, 999);
    late.poll_events(&mut conn, Vec::new());
    assert!(late.events().is_empty());
}

#[test]
fn events_is_stable_between_polls() {
    let mut conn = Connection::new(test_atoms(), 7, None);
    let mut w = Window::new(&mut conn, 1);

    w.poll_events(&mut conn, vec![key_press(1, 0x61), key_press(1, 0x62)]);
    let first: Vec<Event> = w.events().clone();
    let second: Vec<Event> = w.events().clone();
    assert_eq!(first, second);
    assert_eq!(
        first,
        vec![Event::KeyboardDown(Key::A), Event::KeyboardDown(Key::B)]
    );

    // The next poll replaces the buffer wholesale.
    w.poll_events(&mut conn, Vec::new());
    assert!(w.events().is_empty());
}

#[test]
fn mailbox_slots_follow_window_lifetimes() {
    let mut conn = Connection::new(test_atoms(), 7, None);
    let a = Window::new(&mut conn, 1);
    let b = Window::new(&mut conn, 2);
    assert!(conn.is_live(1));
    assert!(conn.is_live(2));

    a.destroy(&mut conn);
    assert!(!conn.is_live(1));
    assert!(conn.is_live(2));

    b.destroy(&mut conn);
    assert!(!conn.is_live(2));
}

#[test]
fn pending_event_survives_until_owner_polls() {
    let mut conn = Connection::new(test_atoms(), 7, None);
    let mut a = Window::new(&mut conn, 1);
    let mut b = Window::new(&mut conn, 2);

    // Two polls by A while B's event waits; B still gets it afterwards.
    a.poll_events(&mut conn, vec![key_press(2, 0x7A)]);
    a.poll_events(&mut conn, Vec::new());
    assert!(a.events().is_empty());

    b.poll_events(&mut conn, Vec::new());
    assert_eq!(b.events().as_slice(), &[Event::KeyboardDown(Key::Z)]);
}

#[test]
fn close_request_routes_to_message_window() {
    let atoms = test_atoms();
    let mut conn = Connection::new(atoms, 7, None);
    let mut w = Window::new(&mut conn, 5);

    let message = RawEvent::ClientMessage {
        format: 32,
        message_type: atoms.wm_protocols,
        first_word: atoms.wm_delete_window,
        window: 5,
    };
    w.poll_events(&mut conn, vec![message]);
    assert_eq!(
        w.events().as_slice(),
        &[Event::CloseRequest(CloseReason::SystemMenu)]
    );
}

#[test]
fn focus_events_carry_their_state() {
    let atoms = test_atoms();
    let focus_in = RawEvent::InputFocus {
        extension: 7,
        focus_in: true,
        window: 3,
    };
    let focus_out = RawEvent::InputFocus {
        extension: 7,
        focus_in: false,
        window: 3,
    };
    assert_eq!(
        classify(&atoms, 7, &focus_in),
        Some((Event::Focus(true), 3))
    );
    assert_eq!(
        classify(&atoms, 7, &focus_out),
        Some((Event::Focus(false), 3))
    );
    // An event from some other extension is not ours to translate.
    assert_eq!(classify(&atoms, 9, &focus_in), None);
}

#[test]
fn reserved_input_events_are_consumed_silently() {
    let atoms = test_atoms();
    assert_eq!(
        classify(&atoms, 7, &RawEvent::InputButton { extension: 7, press: true }),
        None
    );
    assert_eq!(
        classify(&atoms, 7, &RawEvent::InputMotion { extension: 7 }),
        None
    );
    assert_eq!(
        classify(&atoms, 7, &RawEvent::InputCrossing { extension: 7, enter: false }),
        None
    );
    assert_eq!(classify(&atoms, 7, &RawEvent::Other), None);
}
