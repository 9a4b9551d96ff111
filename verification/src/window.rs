//! One on-screen window: its identifier, its local event buffer, and the
//! requests it has queued for the native connection.
//!
//! A window shares its [`Connection`] with every other window created from
//! it; the caller passes the locked connection into each operation that
//! touches shared state. Polling swaps the window's mailbox slot into the
//! local buffer and then routes every freshly pulled native event either
//! into that buffer (when it targets the polling window) or into the
//! target window's mailbox.

use vstd::prelude::*;

use crate::connection::{Atoms, Connection};
use crate::demux::{classify, spec_classify, RawEvent};
use crate::event::Event;

verus! {

/// A mouse cursor shape. This backend leaves the cursor to the native
/// side; the value is accepted and discarded.
#[derive(Clone, Copy, Debug, PartialEq, Eq, Structural)]
pub enum Cursor {
    Arrow,
    Blank,
    Cross,
    Hand,
    Help,
    IBeam,
    Progress,
    ResizeNESW,
    ResizeNS,
    ResizeNWSE,
    ResizeWE,
    ResizeAll,
    Unavailable,
    Wait,
}

/// One request queued by a window for the native connection. Each setter
/// records its request here; the caller drains the queue and performs the
/// corresponding native calls.
#[derive(Clone, Debug, PartialEq)]
pub enum Request {
    SetBorderless(bool),
    SetMaximised(bool),
    SetPosition(i16, i16),
    SetResizable(bool),
    SetSize(u16, u16),
    SetTitle(String),
    SetVisible(bool),
}

/// The abstract value of one queued request.
pub enum RequestView {
    Borderless(bool),
    Maximised(bool),
    Position(i16, i16),
    Resizable(bool),
    Size(u16, u16),
    Title(Seq<char>),
    Visible(bool),
}

impl View for Request {
    type V = RequestView;

    open spec fn view(&self) -> RequestView {
        match self {
            Request::SetBorderless(b) => RequestView::Borderless(*b),
            Request::SetMaximised(b) => RequestView::Maximised(*b),
            Request::SetPosition(x, y) => RequestView::Position(*x, *y),
            Request::SetResizable(b) => RequestView::Resizable(*b),
            Request::SetSize(w, h) => RequestView::Size(*w, *h),
            Request::SetTitle(t) => RequestView::Title(t@),
            Request::SetVisible(b) => RequestView::Visible(*b),
        }
    }
}

/// Where one classified event goes: appended to the polling window's local
/// buffer when it targets that window, appended to the target's mailbox
/// when the target is another live window, and dropped otherwise.
pub open spec fn spec_route(
    mailboxes: Map<u32, Seq<Event>>,
    local: Seq<Event>,
    polling: u32,
    classified: Option<(Event, u32)>,
) -> (Map<u32, Seq<Event>>, Seq<Event>) {
    match classified {
        None => (mailboxes, local),
        Some((ev, target)) => {
            if target == polling {
                (mailboxes, local.push(ev))
            } else if mailboxes.contains_key(target) {
                (mailboxes.insert(target, mailboxes[target].push(ev)), local)
            } else {
                (mailboxes, local)
            }
        },
    }
}

/// Classifies and routes a whole sequence of raw events, in order.
pub open spec fn spec_route_all(
    mailboxes: Map<u32, Seq<Event>>,
    local: Seq<Event>,
    polling: u32,
    atoms: Atoms,
    xi_opcode: u8,
    raw: Seq<RawEvent>,
) -> (Map<u32, Seq<Event>>, Seq<Event>)
    decreases raw.len(),
{
    if raw.len() == 0 {
        (mailboxes, local)
    } else {
        let routed = spec_route(mailboxes, local, polling, spec_classify(atoms, xi_opcode, raw[0]));
        spec_route_all(routed.0, routed.1, polling, atoms, xi_opcode, raw.drop_first())
    }
}

/// What one polling cycle does to the mailbox map and to the polling
/// window's local buffer: the window's mailbox contents (nothing, for a
/// window with no slot) become the new local buffer, the slot is left
/// empty, and every freshly pulled raw event is classified and routed.
pub open spec fn spec_poll(
    mailboxes: Map<u32, Seq<Event>>,
    polling: u32,
    atoms: Atoms,
    xi_opcode: u8,
    raw: Seq<RawEvent>,
) -> (Map<u32, Seq<Event>>, Seq<Event>) {
    let taken = if mailboxes.contains_key(polling) {
        mailboxes[polling]
    } else {
        Seq::<Event>::empty()
    };
    let cleared = if mailboxes.contains_key(polling) {
        mailboxes.insert(polling, Seq::<Event>::empty())
    } else {
        mailboxes
    };
    spec_route_all(cleared, taken, polling, atoms, xi_opcode, raw)
}

/// Represents one open window on the shared connection.
pub struct Window {
    handle: u32,
    event_buffer: Vec<Event>,
    pending: Vec<Request>,
}

impl Window {
    /// The window's native identifier.
    pub closed spec fn spec_handle(self) -> u32 {
        self.handle
    }

    /// The events most recently made visible by a polling cycle.
    pub closed spec fn spec_events(self) -> Seq<Event> {
        self.event_buffer@
    }

    /// The requests queued by the setters and not yet drained.
    pub closed spec fn spec_pending(self) -> Seq<RequestView> {
        self.pending@.map_values(|r: Request| r@)
    }

    /// Registers the freshly created window's mailbox slot on the shared
    /// connection and hands back the window value that owns the local
    /// buffer. The slot is registered even if the caller never polls, so
    /// routing always has a slot to target.
    pub fn new(conn: &mut Connection, handle: u32) -> (w: Window)
        ensures
            final(conn)@ == old(conn)@.insert(handle, Seq::<Event>::empty()),
            final(conn).spec_atoms() == old(conn).spec_atoms(),
            final(conn).spec_xi_opcode() == old(conn).spec_xi_opcode(),
            final(conn).spec_hostname() == old(conn).spec_hostname(),
            w.spec_handle() == handle,
            w.spec_events() == Seq::<Event>::empty(),
            w.spec_pending() == Seq::<RequestView>::empty(),
    {
        conn.register_window(handle);
        let w = Window { handle, event_buffer: Vec::new(), pending: Vec::new() };
        proof {
            assert(w.spec_pending() =~= Seq::<RequestView>::empty());
        }
        w
    }

    /// The events pulled by the last polling cycle. The returned buffer is
    /// stable: it only changes on the next polling cycle.
    pub fn events(&self) -> (r: &Vec<Event>)
        ensures
            r@ == self.spec_events(),
    {
        &self.event_buffer
    }

    /// The native window identifier, for platform-specific interop.
    pub fn xid(&self) -> (r: u32)
        ensures
            r == self.spec_handle(),
    {
        self.handle
    }

    /// Routes one classified event: an event targeting this window goes
    /// straight to the local buffer, never to a mailbox; an event for
    /// another live window goes to that window's mailbox; an event whose
    /// target is not live is dropped.
    pub fn route_event(&mut self, conn: &mut Connection, ev: Event, target: u32)
        ensures
            ({
                let routed = spec_route(
                    old(conn)@,
                    old(self).spec_events(),
                    old(self).spec_handle(),
                    Some((ev, target)),
                );
                final(conn)@ == routed.0 && final(self).spec_events() == routed.1
            }),
            final(self).spec_handle() == old(self).spec_handle(),
            final(self).spec_pending() == old(self).spec_pending(),
            final(conn).spec_atoms() == old(conn).spec_atoms(),
            final(conn).spec_xi_opcode() == old(conn).spec_xi_opcode(),
            final(conn).spec_hostname() == old(conn).spec_hostname(),
    {
        if target == self.handle {
            self.event_buffer.push(ev);
        } else {
            conn.deliver(target, ev);
        }
    }

    /// One polling cycle: swaps the mailbox slot into the local buffer,
    /// then classifies and routes each freshly pulled native event in
    /// order. Must be called regularly; the buffer it fills is read with
    /// [`Window::events`].
    pub fn poll_events(&mut self, conn: &mut Connection, raw: Vec<RawEvent>)
        ensures
            ({
                let polled = spec_poll(
                    old(conn)@,
                    old(self).spec_handle(),
                    old(conn).spec_atoms(),
                    old(conn).spec_xi_opcode(),
                    raw@,
                );
                final(conn)@ == polled.0 && final(self).spec_events() == polled.1
            }),
            final(self).spec_handle() == old(self).spec_handle(),
            final(self).spec_pending() == old(self).spec_pending(),
            final(conn).spec_atoms() == old(conn).spec_atoms(),
            final(conn).spec_xi_opcode() == old(conn).spec_xi_opcode(),
            final(conn).spec_hostname() == old(conn).spec_hostname(),
    {
        let taken = conn.take_mailbox(self.handle);
        self.event_buffer = taken;
        let atoms = conn.atoms();
        let xi_opcode = conn.xi_opcode();
        proof {
            assert(raw@.skip(0) =~= raw@);
        }
        let n = raw.len();
        let mut i: usize = 0;
        while i < n
            invariant
                i <= n,
                n == raw@.len(),
                atoms == conn.spec_atoms(),
                xi_opcode == conn.spec_xi_opcode(),
                conn.spec_atoms() == old(conn).spec_atoms(),
                conn.spec_xi_opcode() == old(conn).spec_xi_opcode(),
                conn.spec_hostname() == old(conn).spec_hostname(),
                self.spec_handle() == old(self).spec_handle(),
                self.spec_pending() == old(self).spec_pending(),
                spec_route_all(
                    conn@,
                    self.spec_events(),
                    self.spec_handle(),
                    atoms,
                    xi_opcode,
                    raw@.skip(i as int),
                ) == spec_poll(
                    old(conn)@,
                    old(self).spec_handle(),
                    atoms,
                    xi_opcode,
                    raw@,
                ),
            decreases n - i,
        {
            proof {
                assert(raw@.skip(i as int).len() > 0);
                assert(raw@.skip(i as int)[0] == raw@[i as int]);
                assert(raw@.skip(i as int).drop_first() =~= raw@.skip(i as int + 1));
            }
            let classified = classify(&atoms, xi_opcode, &raw[i]);
            match classified {
                Some((ev, target)) => {
                    self.route_event(conn, ev, target);
                },
                None => {},
            }
            i = i + 1;
        }
        proof {
            assert(raw@.skip(n as int) =~= Seq::<RawEvent>::empty());
        }
    }

    /// Removes this window's mailbox slot from the shared connection as
    /// the window is destroyed; its identifier is no longer live, so the
    /// demultiplexer will not route to it again.
    pub fn destroy(self, conn: &mut Connection)
        ensures
            final(conn)@ == old(conn)@.remove(self.spec_handle()),
            final(conn).spec_atoms() == old(conn).spec_atoms(),
            final(conn).spec_xi_opcode() == old(conn).spec_xi_opcode(),
            final(conn).spec_hostname() == old(conn).spec_hostname(),
    {
        conn.remove_window(self.handle);
    }

    /// Accepts a cursor shape. This backend does not drive the cursor, so
    /// the value is discarded and nothing changes.
    pub fn set_cursor(&self, cursor: Cursor) {
        let _ = cursor;
    }

    /// Queues a request to add or remove the decorational border.
    pub fn set_borderless(&mut self, borderless: bool)
        ensures
            final(self).spec_pending() == old(self).spec_pending().push(
                RequestView::Borderless(borderless),
            ),
            final(self).spec_handle() == old(self).spec_handle(),
            final(self).spec_events() == old(self).spec_events(),
    {
        self.pending.push(Request::SetBorderless(borderless));
        proof {
            assert(self.spec_pending() =~= old(self).spec_pending().push(
                RequestView::Borderless(borderless),
            ));
        }
    }

    /// Queues a request to maximise or un-maximise the window.
    pub fn set_maximised(&mut self, maximised: bool)
        ensures
            final(self).spec_pending() == old(self).spec_pending().push(
                RequestView::Maximised(maximised),
            ),
            final(self).spec_handle() == old(self).spec_handle(),
            final(self).spec_events() == old(self).spec_events(),
    {
        self.pending.push(Request::SetMaximised(maximised));
        proof {
            assert(self.spec_pending() =~= old(self).spec_pending().push(
                RequestView::Maximised(maximised),
            ));
        }
    }

    /// Queues a request to move the top-left of the inner drawable area.
    pub fn set_position(&mut self, position: (i16, i16))
        ensures
            final(self).spec_pending() == old(self).spec_pending().push(
                RequestView::Position(position.0, position.1),
            ),
            final(self).spec_handle() == old(self).spec_handle(),
            final(self).spec_events() == old(self).spec_events(),
    {
        self.pending.push(Request::SetPosition(position.0, position.1));
        proof {
            assert(self.spec_pending() =~= old(self).spec_pending().push(
                RequestView::Position(position.0, position.1),
            ));
        }
    }

    /// Queues a request to allow or forbid resizing by the user.
    pub fn set_resizable(&mut self, resizable: bool)
        ensures
            final(self).spec_pending() == old(self).spec_pending().push(
                RequestView::Resizable(resizable),
            ),
            final(self).spec_handle() == old(self).spec_handle(),
            final(self).spec_events() == old(self).spec_events(),
    {
        self.pending.push(Request::SetResizable(resizable));
        proof {
            assert(self.spec_pending() =~= old(self).spec_pending().push(
                RequestView::Resizable(resizable),
            ));
        }
    }

    /// Queues a request to resize the inner drawable area, in pixels.
    pub fn set_size(&mut self, size: (u16, u16))
        ensures
            final(self).spec_pending() == old(self).spec_pending().push(
                RequestView::Size(size.0, size.1),
            ),
            final(self).spec_handle() == old(self).spec_handle(),
            final(self).spec_events() == old(self).spec_events(),
    {
        self.pending.push(Request::SetSize(size.0, size.1));
        proof {
            assert(self.spec_pending() =~= old(self).spec_pending().push(
                RequestView::Size(size.0, size.1),
            ));
        }
    }

    /// Queues a request to retitle the window.
    pub fn set_title(&mut self, title: &str)
        ensures
            final(self).spec_pending() == old(self).spec_pending().push(
                RequestView::Title(title@),
            ),
            final(self).spec_handle() == old(self).spec_handle(),
            final(self).spec_events() == old(self).spec_events(),
    {
        self.pending.push(Request::SetTitle(title.to_owned()));
        proof {
            assert(self.spec_pending() =~= old(self).spec_pending().push(
                RequestView::Title(title@),
            ));
        }
    }

    /// Queues a request to show or hide the window.
    pub fn set_visible(&mut self, visible: bool)
        ensures
            final(self).spec_pending() == old(self).spec_pending().push(
                RequestView::Visible(visible),
            ),
            final(self).spec_handle() == old(self).spec_handle(),
            final(self).spec_events() == old(self).spec_events(),
    {
        self.pending.push(Request::SetVisible(visible));
        proof {
            assert(self.spec_pending() =~= old(self).spec_pending().push(
                RequestView::Visible(visible),
            ));
        }
    }

    /// Hands over the queued requests, in the order the setters recorded
    /// them, and leaves the queue empty.
    pub fn take_pending(&mut self) -> (r: Vec<Request>)
        ensures
            r@.map_values(|q: Request| q@) == old(self).spec_pending(),
            final(self).spec_pending() == Seq::<RequestView>::empty(),
            final(self).spec_handle() == old(self).spec_handle(),
            final(self).spec_events() == old(self).spec_events(),
    {
        let mut drained: Vec<Request> = Vec::new();
        core::mem::swap(&mut drained, &mut self.pending);
        proof {
            assert(self.spec_pending() =~= Seq::<RequestView>::empty());
        }
        drained
    }
}

/// Law: routing a classified event whose target identifier matches the
/// polling window always appends it to that window's local buffer and
/// never touches any mailbox.
pub proof fn lemma_route_to_poller(
    mailboxes: Map<u32, Seq<Event>>,
    local: Seq<Event>,
    polling: u32,
    ev: Event,
)
    ensures
        spec_route(mailboxes, local, polling, Some((ev, polling))) == (
            mailboxes,
            local.push(ev),
        ),
{
}

/// Law: routing a classified event whose target identifier is not live is
/// a drop: no mailbox grows and the local buffer is untouched.
pub proof fn lemma_route_dropped(
    mailboxes: Map<u32, Seq<Event>>,
    local: Seq<Event>,
    polling: u32,
    ev: Event,
    target: u32,
)
    requires
        target != polling,
        !mailboxes.contains_key(target),
    ensures
        spec_route(mailboxes, local, polling, Some((ev, target))) == (mailboxes, local),
{
}

/// Law: routing never creates or destroys a mailbox slot; only window
/// creation and destruction do. One routed event leaves the set of live
/// windows exactly as it was.
pub proof fn lemma_route_preserves_live_windows(
    mailboxes: Map<u32, Seq<Event>>,
    local: Seq<Event>,
    polling: u32,
    classified: Option<(Event, u32)>,
)
    ensures
        spec_route(mailboxes, local, polling, classified).0.dom() =~= mailboxes.dom(),
{
}

/// Law: a whole polling cycle leaves the set of live windows exactly as
/// it was, however many events it classifies and routes.
pub proof fn lemma_poll_preserves_live_windows(
    mailboxes: Map<u32, Seq<Event>>,
    polling: u32,
    atoms: Atoms,
    xi_opcode: u8,
    raw: Seq<RawEvent>,
)
    ensures
        spec_poll(mailboxes, polling, atoms, xi_opcode, raw).0.dom() =~= mailboxes.dom(),
{
    let cleared = if mailboxes.contains_key(polling) {
        mailboxes.insert(polling, Seq::<Event>::empty())
    } else {
        mailboxes
    };
    assert(cleared.dom() =~= mailboxes.dom());
    let taken = if mailboxes.contains_key(polling) {
        mailboxes[polling]
    } else {
        Seq::<Event>::empty()
    };
    lemma_route_all_preserves_live_windows(cleared, taken, polling, atoms, xi_opcode, raw);
}

/// Routing a sequence of events preserves the set of live windows, by
/// induction over the sequence.
pub proof fn lemma_route_all_preserves_live_windows(
    mailboxes: Map<u32, Seq<Event>>,
    local: Seq<Event>,
    polling: u32,
    atoms: Atoms,
    xi_opcode: u8,
    raw: Seq<RawEvent>,
)
    ensures
        spec_route_all(mailboxes, local, polling, atoms, xi_opcode, raw).0.dom()
            =~= mailboxes.dom(),
    decreases raw.len(),
{
    if raw.len() > 0 {
        let classified = spec_classify(atoms, xi_opcode, raw[0]);
        let routed = spec_route(mailboxes, local, polling, classified);
        lemma_route_preserves_live_windows(mailboxes, local, polling, classified);
        lemma_route_all_preserves_live_windows(
            routed.0,
            routed.1,
            polling,
            atoms,
            xi_opcode,
            raw.drop_first(),
        );
    }
}

/// Law: reading the events buffer is idempotent. The buffer a polling
/// cycle leaves behind determines every read until the next cycle, so any
/// two reads between two polls return the same sequence.
pub proof fn lemma_events_idempotent(w: Window, first: Seq<Event>, second: Seq<Event>)
    requires
        first == w.spec_events(),
        second == w.spec_events(),
    ensures
        first == second,
{
}

} // verus!
