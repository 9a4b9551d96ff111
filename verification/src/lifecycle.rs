//! The window lifecycle: every decision taken while a window is created.
//!
//! Creation is a fixed protocol against the shared connection: generate an
//! identifier, drain stale events that may still name that identifier,
//! issue the checked creation request, write the window-manager
//! properties, map the window, register the mailbox slot, and flush. The
//! native requests are issued by the caller; each decision on their
//! results is a verified function here.

use vstd::prelude::*;

use crate::connection::{Atoms, Connection};
use crate::demux::{classify, spec_classify, RawEvent};
use crate::error::{spec_classify_connection_error, Error};
use crate::event::Event;

verus! {

/// Default width of a freshly created window, in pixels.
pub const DEFAULT_WIDTH: u16 = 800;

/// Default height of a freshly created window, in pixels.
pub const DEFAULT_HEIGHT: u16 = 608;

/// Default border width of a freshly created window.
pub const DEFAULT_BORDER_WIDTH: u16 = 0;

/// The event-mask bit requesting button-press events. Button-press is
/// exclusive, so it must be requested at creation time; grabbing it after
/// mapping can race with the server delivering the first click elsewhere.
pub const EVENT_MASK_BUTTON_PRESS: u32 = 4;

/// The value-mask bit saying the creation request carries an event mask.
pub const CW_EVENT_MASK: u32 = 2048;

/// The window class requesting an input/output window.
pub const WINDOW_CLASS_INPUT_OUTPUT: u16 = 1;

/// The identifier value meaning "copy from the parent" for depth and
/// visual.
pub const COPY_FROM_PARENT: u8 = 0;

/// The predefined atom naming the ATOM property type.
pub const ATOM_ATOM: u32 = 4;

/// The predefined atom naming the CARDINAL property type.
pub const ATOM_CARDINAL: u32 = 6;

/// The predefined atom naming the STRING property type.
pub const ATOM_STRING: u32 = 31;

/// The predefined atom naming the legacy WM_NAME property.
pub const ATOM_WM_NAME: u32 = 39;

/// The protocol error code for an allocation failure.
pub const ERROR_CODE_ALLOC: u8 = 11;

/// The all-ones sentinel an identifier request returns on failure.
pub const WINDOW_ID_NONE: u32 = 0xFFFF_FFFF;

/// How a freshly generated window identifier is validated: the all-ones
/// sentinel means the identifier space is exhausted or the connection is
/// broken, a resource error; anything else is the new identifier.
pub open spec fn spec_validate_window_id(xid: u32) -> Result<u32, Error> {
    if xid == WINDOW_ID_NONE {
        Err(Error::SystemResources)
    } else {
        Ok(xid)
    }
}

/// Validates the identifier the server generated for the new window.
pub fn validate_window_id(xid: u32) -> (r: Result<u32, Error>)
    ensures
        r == spec_validate_window_id(xid),
{
    if xid == WINDOW_ID_NONE {
        Err(Error::SystemResources)
    } else {
        Ok(xid)
    }
}

/// The fixed creation request issued for every new window: default
/// geometry, zero border, an input/output window inheriting depth and
/// visual, and an event mask requesting button-press exclusivity.
#[derive(Clone, Copy, Debug, PartialEq, Eq, Structural)]
pub struct CreateWindowRequest {
    pub x: i16,
    pub y: i16,
    pub width: u16,
    pub height: u16,
    pub border_width: u16,
    pub depth: u8,
    pub window_class: u16,
    pub value_mask: u32,
    pub event_mask: u32,
}

/// Builds the creation request for a new window.
pub fn creation_request() -> (r: CreateWindowRequest)
    ensures
        r == (CreateWindowRequest {
            x: 0,
            y: 0,
            width: DEFAULT_WIDTH,
            height: DEFAULT_HEIGHT,
            border_width: DEFAULT_BORDER_WIDTH,
            depth: COPY_FROM_PARENT,
            window_class: WINDOW_CLASS_INPUT_OUTPUT,
            value_mask: CW_EVENT_MASK,
            event_mask: EVENT_MASK_BUTTON_PRESS,
        }),
{
    CreateWindowRequest {
        x: 0,
        y: 0,
        width: DEFAULT_WIDTH,
        height: DEFAULT_HEIGHT,
        border_width: DEFAULT_BORDER_WIDTH,
        depth: COPY_FROM_PARENT,
        window_class: WINDOW_CLASS_INPUT_OUTPUT,
        value_mask: CW_EVENT_MASK,
        event_mask: EVENT_MASK_BUTTON_PRESS,
    }
}

/// How a checked creation request's protocol error is classified: an
/// allocation failure is a resource error; every other code the request
/// can produce reflects a bad parameter.
pub open spec fn spec_classify_create_failure(error_code: u8) -> Error {
    if error_code == ERROR_CODE_ALLOC {
        Error::SystemResources
    } else {
        Error::Invalid
    }
}

/// Classifies the protocol error a checked creation request returned.
pub fn classify_create_failure(error_code: u8) -> (e: Error)
    ensures
        e == spec_classify_create_failure(error_code),
{
    if error_code == ERROR_CODE_ALLOC {
        Error::SystemResources
    } else {
        Error::Invalid
    }
}

/// How a failed checked map request is resolved: the connection's own
/// error code decides, and a clean connection leaves an unknown failure.
pub open spec fn spec_classify_map_failure(connection_code: i32) -> Error {
    match spec_classify_connection_error(connection_code) {
        Err(e) => e,
        Ok(()) => Error::Unknown,
    }
}

/// Resolves a failed checked map request via the connection-validity
/// check, read from the native connection's error code.
pub fn classify_map_failure(connection_code: i32) -> (e: Error)
    ensures
        e == spec_classify_map_failure(connection_code),
{
    match crate::error::classify_connection_error(connection_code) {
        Err(e) => e,
        Ok(()) => Error::Unknown,
    }
}

/// How a flush result is resolved: a positive return is success; anything
/// else falls back to the connection-validity check, and a clean
/// connection leaves an unknown failure.
pub open spec fn spec_classify_flush_result(flush_return: i32, connection_code: i32) -> Result<
    (),
    Error,
> {
    if flush_return > 0 {
        Ok(())
    } else {
        Err(spec_classify_map_failure(connection_code))
    }
}

/// Resolves a flush's return value, falling back to the
/// connection-validity check on a non-positive result.
pub fn classify_flush_result(flush_return: i32, connection_code: i32) -> (r: Result<(), Error>)
    ensures
        r == spec_classify_flush_result(flush_return, connection_code),
{
    if flush_return > 0 {
        Ok(())
    } else {
        Err(classify_map_failure(connection_code))
    }
}

/// Where one stale event goes during the pre-drain: into the mailbox of
/// the live window it targets, or nowhere. No window is polling yet, so
/// nothing reaches a local buffer.
pub open spec fn spec_drain_one(
    mailboxes: Map<u32, Seq<Event>>,
    atoms: Atoms,
    xi_opcode: u8,
    ev: RawEvent,
) -> Map<u32, Seq<Event>> {
    match spec_classify(atoms, xi_opcode, ev) {
        None => mailboxes,
        Some((event, target)) => {
            if mailboxes.contains_key(target) {
                mailboxes.insert(target, mailboxes[target].push(event))
            } else {
                mailboxes
            }
        },
    }
}

/// The pre-drain over a whole sequence of stale events, in order.
pub open spec fn spec_drain_all(
    mailboxes: Map<u32, Seq<Event>>,
    atoms: Atoms,
    xi_opcode: u8,
    raw: Seq<RawEvent>,
) -> Map<u32, Seq<Event>>
    decreases raw.len(),
{
    if raw.len() == 0 {
        mailboxes
    } else {
        spec_drain_all(
            spec_drain_one(mailboxes, atoms, xi_opcode, raw[0]),
            atoms,
            xi_opcode,
            raw.drop_first(),
        )
    }
}

/// The pre-drain step of window creation: before the freshly generated
/// identifier is used, any already-queued native events are classified
/// and routed into the mailboxes of the live windows they target, so that
/// stale events left over from a previous window with the same recycled
/// identifier cannot reach the new one.
pub fn drain_stale(conn: &mut Connection, raw: Vec<RawEvent>)
    ensures
        final(conn)@ == spec_drain_all(
            old(conn)@,
            old(conn).spec_atoms(),
            old(conn).spec_xi_opcode(),
            raw@,
        ),
        final(conn).spec_atoms() == old(conn).spec_atoms(),
        final(conn).spec_xi_opcode() == old(conn).spec_xi_opcode(),
        final(conn).spec_hostname() == old(conn).spec_hostname(),
{
    let atoms = conn.atoms();
    let xi_opcode = conn.xi_opcode();
    proof {
        assert(raw@.skip(0) =~= raw@);
    }
    let n = raw.len();
    let mut i: usize = 0;
    while i < n
        invariant
            i <= n,
            n == raw@.len(),
            atoms == conn.spec_atoms(),
            xi_opcode == conn.spec_xi_opcode(),
            conn.spec_atoms() == old(conn).spec_atoms(),
            conn.spec_xi_opcode() == old(conn).spec_xi_opcode(),
            conn.spec_hostname() == old(conn).spec_hostname(),
            spec_drain_all(conn@, atoms, xi_opcode, raw@.skip(i as int)) == spec_drain_all(
                old(conn)@,
                atoms,
                xi_opcode,
                raw@,
            ),
        decreases n - i,
    {
        proof {
            assert(raw@.skip(i as int)[0] == raw@[i as int]);
            assert(raw@.skip(i as int).drop_first() =~= raw@.skip(i as int + 1));
        }
        let classified = classify(&atoms, xi_opcode, &raw[i]);
        match classified {
            Some((event, target)) => {
                conn.deliver(target, event);
            },
            None => {},
        }
        i = i + 1;
    }
    proof {
        assert(raw@.skip(n as int) =~= Seq::<RawEvent>::empty());
    }
}

/// Law: the pre-drain never creates a mailbox slot. A stale event whose
/// target is not live leaves the map untouched, and one whose target is
/// live only appends to that target's existing slot.
pub proof fn lemma_drain_preserves_live_windows(
    mailboxes: Map<u32, Seq<Event>>,
    atoms: Atoms,
    xi_opcode: u8,
    raw: Seq<RawEvent>,
)
    ensures
        spec_drain_all(mailboxes, atoms, xi_opcode, raw).dom() =~= mailboxes.dom(),
    decreases raw.len(),
{
    if raw.len() > 0 {
        let drained = spec_drain_one(mailboxes, atoms, xi_opcode, raw[0]);
        assert(drained.dom() =~= mailboxes.dom());
        lemma_drain_preserves_live_windows(drained, atoms, xi_opcode, raw.drop_first());
    }
}

/// The payload of one property write: 32-bit words or raw bytes,
/// depending on the property's format.
#[derive(Clone, Debug, PartialEq)]
pub enum PropertyData {
    Words(Vec<u32>),
    Bytes(Vec<u8>),
}

/// One property write issued while a window is created: the property
/// atom, the atom of its value type, the element format in bits, and the
/// payload.
#[derive(Clone, Debug, PartialEq)]
pub struct PropertyWrite {
    pub property: u32,
    pub value_kind: u32,
    pub format: u8,
    pub data: PropertyData,
}

/// The abstract value of one property payload.
pub enum PropertyDataView {
    Words(Seq<u32>),
    Bytes(Seq<u8>),
}

/// The abstract value of one property write.
pub struct PropertyWriteView {
    pub property: u32,
    pub value_kind: u32,
    pub format: u8,
    pub data: PropertyDataView,
}

impl View for PropertyData {
    type V = PropertyDataView;

    open spec fn view(&self) -> PropertyDataView {
        match self {
            PropertyData::Words(w) => PropertyDataView::Words(w@),
            PropertyData::Bytes(b) => PropertyDataView::Bytes(b@),
        }
    }
}

impl View for PropertyWrite {
    type V = PropertyWriteView;

    open spec fn view(&self) -> PropertyWriteView {
        PropertyWriteView {
            property: self.property,
            value_kind: self.value_kind,
            format: self.format,
            data: self.data@,
        }
    }
}

/// The hostname as the property plan sees it: its bytes, or nothing when
/// resolution failed at connection construction.
pub open spec fn spec_host_bytes(hostname: Option<Vec<u8>>) -> Option<Seq<u8>> {
    match hostname {
        Some(h) => Some(h@),
        None => None,
    }
}

/// The property writes issued for a new window: WM_DELETE_WINDOW
/// registered inside WM_PROTOCOLS, the title written to both the modern
/// UTF-8 name property and the legacy name property, and, exactly when
/// the hostname was resolved, the process id and client machine pair.
pub open spec fn spec_property_writes(
    atoms: Atoms,
    title: Seq<u8>,
    hostname: Option<Seq<u8>>,
    pid: u32,
) -> Seq<PropertyWriteView> {
    let base = seq![
        PropertyWriteView {
            property: atoms.wm_protocols,
            value_kind: ATOM_ATOM,
            format: 32,
            data: PropertyDataView::Words(seq![atoms.wm_delete_window]),
        },
        PropertyWriteView {
            property: atoms.net_wm_name,
            value_kind: atoms.utf8_string,
            format: 8,
            data: PropertyDataView::Bytes(title),
        },
        PropertyWriteView {
            property: ATOM_WM_NAME,
            value_kind: ATOM_STRING,
            format: 8,
            data: PropertyDataView::Bytes(title),
        },
    ];
    match hostname {
        Some(host) => base.push(
            PropertyWriteView {
                property: atoms.net_wm_pid,
                value_kind: ATOM_CARDINAL,
                format: 32,
                data: PropertyDataView::Words(seq![pid]),
            },
        ).push(
            PropertyWriteView {
                property: atoms.wm_client_machine,
                value_kind: ATOM_STRING,
                format: 8,
                data: PropertyDataView::Bytes(host),
            },
        ),
        None => base,
    }
}

/// Copies a byte buffer, element for element.
fn copy_bytes(src: &Vec<u8>) -> (r: Vec<u8>)
    ensures
        r@ == src@,
{
    let mut r: Vec<u8> = Vec::new();
    let n = src.len();
    let mut i: usize = 0;
    while i < n
        invariant
            i <= n,
            n == src@.len(),
            r@ == src@.subrange(0, i as int),
        decreases n - i,
    {
        r.push(src[i]);
        proof {
            assert(r@ =~= src@.subrange(0, i as int + 1));
        }
        i = i + 1;
    }
    proof {
        assert(r@ =~= src@);
    }
    r
}

/// Builds the ordered property writes for a new window with this title,
/// given the hostname resolved at connection construction (or its
/// absence) and the process id.
pub fn property_writes(
    atoms: &Atoms,
    title: &Vec<u8>,
    hostname: &Option<Vec<u8>>,
    pid: u32,
) -> (w: Vec<PropertyWrite>)
    ensures
        w@.map_values(|p: PropertyWrite| p@) == spec_property_writes(
            *atoms,
            title@,
            spec_host_bytes(*hostname),
            pid,
        ),
{
    let mut w: Vec<PropertyWrite> = Vec::new();
    let mut protocol_words: Vec<u32> = Vec::new();
    protocol_words.push(atoms.wm_delete_window);
    w.push(
        PropertyWrite {
            property: atoms.wm_protocols,
            value_kind: ATOM_ATOM,
            format: 32,
            data: PropertyData::Words(protocol_words),
        },
    );
    w.push(
        PropertyWrite {
            property: atoms.net_wm_name,
            value_kind: atoms.utf8_string,
            format: 8,
            data: PropertyData::Bytes(copy_bytes(title)),
        },
    );
    w.push(
        PropertyWrite {
            property: ATOM_WM_NAME,
            value_kind: ATOM_STRING,
            format: 8,
            data: PropertyData::Bytes(copy_bytes(title)),
        },
    );
    match hostname {
        Some(host) => {
            let mut pid_words: Vec<u32> = Vec::new();
            pid_words.push(pid);
            w.push(
                PropertyWrite {
                    property: atoms.net_wm_pid,
                    value_kind: ATOM_CARDINAL,
                    format: 32,
                    data: PropertyData::Words(pid_words),
                },
            );
            w.push(
                PropertyWrite {
                    property: atoms.wm_client_machine,
                    value_kind: ATOM_STRING,
                    format: 8,
                    data: PropertyData::Bytes(copy_bytes(host)),
                },
            );
        },
        None => {},
    }
    proof {
        assert(w@.map_values(|p: PropertyWrite| p@) =~~= spec_property_writes(
            *atoms,
            title@,
            spec_host_bytes(*hostname),
            pid,
        ));
    }
    w
}

/// Holds when some write in the plan names this property atom.
pub open spec fn plan_mentions(w: Seq<PropertyWriteView>, property: u32) -> bool {
    exists|i: int| 0 <= i < w.len() && w[i].property == property
}

/// Law: the two process-identity properties are written together or not
/// at all. The plan mentions _NET_WM_PID exactly when the hostname was
/// resolved, and likewise WM_CLIENT_MACHINE, never exactly one of the
/// two. The atoms named by the six cached entries are pairwise distinct,
/// and neither identity atom can collide with the predefined legacy name
/// atom, since their names differ from its.
pub proof fn lemma_process_identity_paired(
    atoms: Atoms,
    title: Seq<u8>,
    hostname: Option<Seq<u8>>,
    pid: u32,
)
    requires
        atoms.wf(),
        atoms.net_wm_pid != ATOM_WM_NAME,
        atoms.wm_client_machine != ATOM_WM_NAME,
    ensures
        plan_mentions(spec_property_writes(atoms, title, hostname, pid), atoms.net_wm_pid)
            <==> hostname.is_some(),
        plan_mentions(spec_property_writes(atoms, title, hostname, pid), atoms.wm_client_machine)
            <==> hostname.is_some(),
{
    let w = spec_property_writes(atoms, title, hostname, pid);
    match hostname {
        Some(host) => {
            assert(w[3].property == atoms.net_wm_pid);
            assert(w[4].property == atoms.wm_client_machine);
            assert(plan_mentions(w, atoms.net_wm_pid));
            assert(plan_mentions(w, atoms.wm_client_machine));
        },
        None => {
            assert(w.len() == 3);
            assert(forall|i: int| 0 <= i < w.len() ==> w[i].property != atoms.net_wm_pid);
            assert(forall|i: int|
                0 <= i < w.len() ==> w[i].property != atoms.wm_client_machine);
        },
    }
}

} // verus!
