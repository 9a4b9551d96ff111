use ramen::caps::Capabilities;
use ramen::connection::{
    classify_input_extension, grow_hostname_buffer, terminate_hostname, Atoms, Connection,
    HOSTNAME_LEN_CEILING, HOSTNAME_STARTING_LEN,
};
use ramen::error::{classify_connection_error, Error};
use ramen::lifecycle::{
    classify_create_failure, classify_flush_result, classify_map_failure, creation_request,
    drain_stale, property_writes, validate_window_id, PropertyData, PropertyWrite,
    ATOM_ATOM, ATOM_CARDINAL, ATOM_STRING, ATOM_WM_NAME,
};
use ramen::demux::RawEvent;
use ramen::event::{Event, Key};
use ramen::window::{Request, Window};

fn test_atoms() -> Atoms {
    Atoms {
        wm_protocols: 300,
        wm_delete_window: 301,
        net_wm_name: 302,
        utf8_string: 303,
        net_wm_pid: 304,
        wm_client_machine: 305,
    }
}

#[test]
fn connection_error_codes_classify_exactly() {
    assert_eq!(classify_connection_error(0), Ok(()));
    assert_eq!(classify_connection_error(2), Err(Error::Unsupported));
    assert_eq!(classify_connection_error(3), Err(Error::SystemResources));
    assert_eq!(classify_connection_error(1), Err(Error::Invalid));
    assert_eq!(classify_connection_error(7), Err(Error::Invalid));
    assert_eq!(classify_connection_error(-5), Err(Error::Invalid));
}

#[test]
fn atom_interning_aborts_on_any_missing_reply() {
    let ok = Atoms::from_replies(
        Some(300),
        Some(301),
        Some(302),
        Some(303),
        Some(304),
        Some(305),
    );
    assert_eq!(ok, Ok(test_atoms()));

    let failed = Atoms::from_replies(Some(300), None, Some(302), Some(303), Some(304), Some(305));
    assert_eq!(failed, Err(Error::SystemResources));
}

#[test]
fn input_extension_reply_classifies_exactly() {
    assert_eq!(classify_input_extension(None), Err(Error::SystemResources));
    assert_eq!(
        classify_input_extension(Some((false, 9))),
        Err(Error::Unsupported)
    );
    assert_eq!(classify_input_extension(Some((true, 42))), Ok(42));
}

#[test]
fn hostname_buffer_doubles_up_to_the_ceiling() {
    assert_eq!(HOSTNAME_STARTING_LEN, 16);
    assert_eq!(grow_hostname_buffer(16), Some(32));
    assert_eq!(grow_hostname_buffer(32), Some(64));
    assert_eq!(grow_hostname_buffer(HOSTNAME_LEN_CEILING / 2), Some(HOSTNAME_LEN_CEILING));
    assert_eq!(grow_hostname_buffer(HOSTNAME_LEN_CEILING / 2 + 1), None);
    assert_eq!(grow_hostname_buffer(HOSTNAME_LEN_CEILING), None);
}

#[test]
fn hostname_is_cut_at_the_first_nul() {
    let mut filled = vec![b'h', b'i', 0, 0, 0];
    terminate_hostname(&mut filled);
    assert_eq!(filled, vec![b'h', b'i', 0]);

    let mut exact = vec![b'h', b'i'];
    terminate_hostname(&mut exact);
    assert_eq!(exact, vec![b'h', b'i', 0]);

    let mut empty: Vec<u8> = Vec::new();
    terminate_hostname(&mut empty);
    assert_eq!(empty, vec![0]);
}

#[test]
fn capability_table_validity_follows_resolution() {
    let good = Capabilities::from_resolution(true, true, 1, true, 0);
    assert!(good.is_valid());
    assert_eq!(good.guard(), Ok(()));

    assert!(!Capabilities::from_resolution(false, true, 1, true, 0).is_valid());
    assert!(!Capabilities::from_resolution(true, false, 1, true, 0).is_valid());
    assert!(!Capabilities::from_resolution(true, true, 0, true, 0).is_valid());
    assert!(!Capabilities::from_resolution(true, true, 1, false, 0).is_valid());
    assert!(!Capabilities::from_resolution(true, true, 1, true, 1).is_valid());

    let invalid = Capabilities::invalid();
    assert!(!invalid.is_valid());
    assert_eq!(invalid.guard(), Err(Error::Unsupported));
}

#[test]
fn generated_identifier_sentinel_is_a_resource_error() {
    assert_eq!(validate_window_id(u32::MAX), Err(Error::SystemResources));
    assert_eq!(validate_window_id(0), Ok(0));
    assert_eq!(validate_window_id(77), Ok(77));
}

#[test]
fn creation_request_uses_the_default_geometry() {
    let r = creation_request();
    assert_eq!(r.x, 0);
    assert_eq!(r.y, 0);
    assert_eq!(r.width, 800);
    assert_eq!(r.height, 608);
    assert_eq!(r.border_width, 0);
    assert_eq!(r.depth, 0);
    assert_eq!(r.window_class, 1);
    assert_eq!(r.value_mask, 2048);
    assert_eq!(r.event_mask, 4);
}

#[test]
fn creation_failure_codes_classify_exactly() {
    assert_eq!(classify_create_failure(11), Error::SystemResources);
    assert_eq!(classify_create_failure(8), Error::Invalid);
    assert_eq!(classify_create_failure(2), Error::Invalid);
}

#[test]
fn map_failure_falls_back_to_the_connection_check() {
    assert_eq!(classify_map_failure(2), Error::Unsupported);
    assert_eq!(classify_map_failure(3), Error::SystemResources);
    assert_eq!(classify_map_failure(1), Error::Invalid);
    // A clean connection leaves the failure undiagnosable.
    assert_eq!(classify_map_failure(0), Error::Unknown);
}

#[test]
fn flush_result_positive_is_success() {
    assert_eq!(classify_flush_result(1, 0), Ok(()));
    assert_eq!(classify_flush_result(12, 3), Ok(()));
    assert_eq!(classify_flush_result(0, 0), Err(Error::Unknown));
    assert_eq!(classify_flush_result(-1, 3), Err(Error::SystemResources));
    assert_eq!(classify_flush_result(0, 2), Err(Error::Unsupported));
}

#[test]
fn title_properties_are_written_twice() {
    let atoms = test_atoms();
    let title = b"Test".to_vec();
    let writes = property_writes(&atoms, &title, &None, 4242);
    assert_eq!(writes.len(), 3);

    assert_eq!(writes[0].property, atoms.wm_protocols);
    assert_eq!(writes[0].value_kind, ATOM_ATOM);
    assert_eq!(writes[0].format, 32);
    assert_eq!(
        writes[0].data,
        PropertyData::Words(vec![atoms.wm_delete_window])
    );

    assert_eq!(writes[1].property, atoms.net_wm_name);
    assert_eq!(writes[1].value_kind, atoms.utf8_string);
    assert_eq!(writes[1].format, 8);
    assert_eq!(writes[1].data, PropertyData::Bytes(title.clone()));

    assert_eq!(writes[2].property, ATOM_WM_NAME);
    assert_eq!(writes[2].value_kind, ATOM_STRING);
    assert_eq!(writes[2].format, 8);
    assert_eq!(writes[2].data, PropertyData::Bytes(title));
}

#[test]
fn host_identity_written_as_a_pair_or_not_at_all() {
    let atoms = test_atoms();
    let title = b"Test".to_vec();
    let host = vec![b'h', b'o', b's', b't', 0];

    let with_host = property_writes(&atoms, &title, &Some(host.clone()), 4242);
    assert_eq!(with_host.len(), 5);
    assert_eq!(with_host[3].property, atoms.net_wm_pid);
    assert_eq!(with_host[3].value_kind, ATOM_CARDINAL);
    assert_eq!(with_host[3].format, 32);
    assert_eq!(with_host[3].data, PropertyData::Words(vec![4242]));
    assert_eq!(with_host[4].property, atoms.wm_client_machine);
    assert_eq!(with_host[4].value_kind, ATOM_STRING);
    assert_eq!(with_host[4].format, 8);
    assert_eq!(with_host[4].data, PropertyData::Bytes(host));

    let without: Vec<PropertyWrite> = property_writes(&atoms, &title, &None, 4242);
    assert!(without
        .iter()
        .all(|p| p.property != atoms.net_wm_pid && p.property != atoms.wm_client_machine));
}

#[test]
fn window_without_hostname_is_still_created() {
    // A connection whose hostname resolution failed still creates the
    // window; only the identity properties are absent.
    let mut conn = Connection::new(test_atoms(), 7, None);
    let mut w = Window::new(&mut conn, 21);
    assert!(conn.is_live(21));
    assert!(conn.hostname().is_none());

    let writes = property_writes(&test_atoms(), &b"Test".to_vec(), conn.hostname(), 1);
    assert_eq!(writes.len(), 3);

    w.poll_events(&mut conn, Vec::new());
    assert!(w.events().is_empty());
}

#[test]
fn stale_events_go_to_live_mailboxes_only() {
    let atoms = test_atoms();
    let mut conn = Connection::new(atoms, 7, None);
    let mut survivor = Window::new(&mut conn, 8);

    let for_survivor = RawEvent::InputKey {
        extension: 7,
        press: true,
        repeat: false,
        keysym: 0x71,
        shifted_keysym: 0,
        window: 8,
    };
    let for_recycled = RawEvent::InputKey {
        extension: 7,
        press: true,
        repeat: false,
        keysym: 0x71,
        shifted_keysym: 0,
        window: 9,
    };
    drain_stale(&mut conn, vec![for_survivor, for_recycled]);

    // The freshly created window with the recycled identifier sees none
    // of the stale traffic.
    let mut fresh = Window::new(&mut conn, 9);
    fresh.poll_events(&mut conn, Vec::new());
    assert!(fresh.events().is_empty());

    survivor.poll_events(&mut conn, Vec::new());
    assert_eq!(survivor.events().as_slice(), &[Event::KeyboardDown(Key::Q)]);
}

#[test]
fn setters_queue_their_requests_in_order() {
    let mut conn = Connection::new(test_atoms(), 7, None);
    let mut w = Window::new(&mut conn, 4);

    w.set_borderless(true);
    w.set_maximised(false);
    w.set_position((10, -20));
    w.set_resizable(true);
    w.set_size((640, 480));
    w.set_title("Test");
    w.set_visible(false);

    let drained = w.take_pending();
    assert_eq!(
        drained,
        vec![
            Request::SetBorderless(true),
            Request::SetMaximised(false),
            Request::SetPosition(10, -20),
            Request::SetResizable(true),
            Request::SetSize(640, 480),
            Request::SetTitle("Test".to_string()),
            Request::SetVisible(false),
        ]
    );
    assert!(w.take_pending().is_empty());

    // The cursor setter is a deliberate no-op on this backend.
    w.set_cursor(ramen::window::Cursor::Hand);
    assert!(w.take_pending().is_empty());
    assert_eq!(w.xid(), 4);
}
