//! The shared connection: interned atoms, extension metadata, the resolved
//! hostname, and the per-window event mailboxes.
//!
//! One connection is shared by every window created through it; the caller
//! holds it under a single mutual-exclusion lock, so every operation here
//! acts on the whole connection state at once. The mailbox map is viewed as
//! a `Map` from window identifier to the ordered sequence of events pending
//! for that window.

use vstd::prelude::*;

use std::collections::HashMap;

use crate::error::Error;
use crate::event::Event;

verus! {

broadcast use vstd::std_specs::hash::group_hash_axioms;

/// The buffer length a hostname lookup starts from.
pub const HOSTNAME_STARTING_LEN: usize = 16;

/// The ceiling a hostname lookup buffer may grow to.
pub const HOSTNAME_LEN_CEILING: usize = 65536;

/// The six protocol atoms interned once at connection construction.
#[derive(Clone, Copy, Debug, PartialEq, Eq, Structural)]
pub struct Atoms {
    pub wm_protocols: u32,
    pub wm_delete_window: u32,
    pub net_wm_name: u32,
    pub utf8_string: u32,
    pub net_wm_pid: u32,
    pub wm_client_machine: u32,
}

impl Atoms {
    /// The server assigns a distinct atom to each distinct name, so the six
    /// cached atoms are pairwise distinct.
    pub open spec fn wf(self) -> bool {
        &&& self.wm_protocols != self.wm_delete_window
        &&& self.wm_protocols != self.net_wm_name
        &&& self.wm_protocols != self.utf8_string
        &&& self.wm_protocols != self.net_wm_pid
        &&& self.wm_protocols != self.wm_client_machine
        &&& self.wm_delete_window != self.net_wm_name
        &&& self.wm_delete_window != self.utf8_string
        &&& self.wm_delete_window != self.net_wm_pid
        &&& self.wm_delete_window != self.wm_client_machine
        &&& self.net_wm_name != self.utf8_string
        &&& self.net_wm_name != self.net_wm_pid
        &&& self.net_wm_name != self.wm_client_machine
        &&& self.utf8_string != self.net_wm_pid
        &&& self.utf8_string != self.wm_client_machine
        &&& self.net_wm_pid != self.wm_client_machine
    }
}

/// How the six interning replies are resolved: any single missing reply
/// aborts construction with a resource error, since interning a fixed,
/// valid name can only fail for allocation or connection reasons.
pub open spec fn spec_atoms_from_replies(
    r0: Option<u32>,
    r1: Option<u32>,
    r2: Option<u32>,
    r3: Option<u32>,
    r4: Option<u32>,
    r5: Option<u32>,
) -> Result<Atoms, Error> {
    match (r0, r1, r2, r3, r4, r5) {
        (Some(a0), Some(a1), Some(a2), Some(a3), Some(a4), Some(a5)) => Ok(
            Atoms {
                wm_protocols: a0,
                wm_delete_window: a1,
                net_wm_name: a2,
                utf8_string: a3,
                net_wm_pid: a4,
                wm_client_machine: a5,
            },
        ),
        _ => Err(Error::SystemResources),
    }
}

impl Atoms {
    /// Builds the atom cache from the six interning replies, in the fixed
    /// order WM_PROTOCOLS, WM_DELETE_WINDOW, _NET_WM_NAME, UTF8_STRING,
    /// _NET_WM_PID, WM_CLIENT_MACHINE.
    pub fn from_replies(
        r0: Option<u32>,
        r1: Option<u32>,
        r2: Option<u32>,
        r3: Option<u32>,
        r4: Option<u32>,
        r5: Option<u32>,
    ) -> (r: Result<Atoms, Error>)
        ensures
            r == spec_atoms_from_replies(r0, r1, r2, r3, r4, r5),
    {
        match (r0, r1, r2, r3, r4, r5) {
            (Some(a0), Some(a1), Some(a2), Some(a3), Some(a4), Some(a5)) => Ok(
                Atoms {
                    wm_protocols: a0,
                    wm_delete_window: a1,
                    net_wm_name: a2,
                    utf8_string: a3,
                    net_wm_pid: a4,
                    wm_client_machine: a5,
                },
            ),
            _ => Err(Error::SystemResources),
        }
    }
}

/// How the extended-input presence reply is resolved: a missing reply is a
/// resource error, a present reply without the capability is unsupported
/// (not a degraded mode), and otherwise the extension opcode is kept.
pub open spec fn spec_classify_input_extension(reply: Option<(bool, u8)>) -> Result<u8, Error> {
    match reply {
        None => Err(Error::SystemResources),
        Some((present, opcode)) => if present {
            Ok(opcode)
        } else {
            Err(Error::Unsupported)
        },
    }
}

/// Resolves the extended-input query reply (`present` flag and major
/// opcode) into the cached opcode or a construction error.
pub fn classify_input_extension(reply: Option<(bool, u8)>) -> (r: Result<u8, Error>)
    ensures
        r == spec_classify_input_extension(reply),
{
    match reply {
        None => Err(Error::SystemResources),
        Some((present, opcode)) => if present {
            Ok(opcode)
        } else {
            Err(Error::Unsupported)
        },
    }
}

/// The next buffer length a hostname lookup retries with: double the
/// current length, giving up beyond the ceiling or on overflow.
pub open spec fn spec_grow_hostname_buffer(len: usize) -> Option<usize> {
    if 2 * len <= HOSTNAME_LEN_CEILING {
        Some((2 * len) as usize)
    } else {
        None
    }
}

/// Grows the hostname lookup buffer for one more retry, or gives up once
/// the ceiling is passed.
pub fn grow_hostname_buffer(len: usize) -> (r: Option<usize>)
    ensures
        r == spec_grow_hostname_buffer(len),
{
    if len <= HOSTNAME_LEN_CEILING / 2 {
        Some(len * 2)
    } else {
        None
    }
}

/// Holds when the first `n` bytes of `s` contain no NUL.
pub open spec fn nul_free_prefix(s: Seq<u8>, n: int) -> bool {
    forall|j: int| 0 <= j < n ==> s[j] != 0
}

/// Trims a buffer filled by a successful hostname lookup to exactly the
/// name and one trailing NUL: cut at the first NUL if there is one, append
/// a NUL if the name filled the whole buffer.
pub fn terminate_hostname(buf: &mut Vec<u8>)
    ensures
        nul_free_prefix(old(buf)@, old(buf)@.len() as int) ==> final(buf)@ == old(buf)@.push(0),
        forall|i: int|
            0 <= i < old(buf)@.len() && old(buf)@[i] == 0 && nul_free_prefix(old(buf)@, i)
                ==> final(buf)@ == old(buf)@.subrange(0, i + 1),
        final(buf)@.len() >= 1,
        final(buf)@[final(buf)@.len() - 1] == 0,
{
    let mut i: usize = 0;
    while i < buf.len()
        invariant
            i <= buf@.len(),
            buf@ == old(buf)@,
            nul_free_prefix(buf@, i as int),
        decreases buf@.len() - i,
    {
        if buf[i] == 0 {
            buf.truncate(i + 1);
            assert(final(buf)@ =~= old(buf)@.subrange(0, i + 1));
            return ;
        }
        i = i + 1;
    }
    buf.push(0);
}

/// The shared connection state: the atom cache, the extended-input opcode,
/// the hostname resolved at construction (absent when resolution failed),
/// and the mailbox map. The view of a connection is the mailbox map, from
/// window identifier to the pending events for that window.
pub struct Connection {
    atoms: Atoms,
    xi_opcode: u8,
    hostname: Option<Vec<u8>>,
    mailboxes: HashMap<u32, Vec<Event>>,
}

impl View for Connection {
    type V = Map<u32, Seq<Event>>;

    closed spec fn view(&self) -> Map<u32, Seq<Event>> {
        self.mailboxes@.map_values(|q: Vec<Event>| q@)
    }
}

impl Connection {
    /// The atom cache interned at construction.
    pub closed spec fn spec_atoms(self) -> Atoms {
        self.atoms
    }

    /// The extended-input extension opcode cached at construction.
    pub closed spec fn spec_xi_opcode(self) -> u8 {
        self.xi_opcode
    }

    /// The hostname resolved at construction, or `None` when resolution
    /// failed.
    pub closed spec fn spec_hostname(self) -> Option<Seq<u8>> {
        match self.hostname {
            Some(h) => Some(h@),
            None => None,
        }
    }

    /// Reads the atom cache.
    pub fn atoms(&self) -> (a: Atoms)
        ensures
            a == self.spec_atoms(),
    {
        self.atoms
    }

    /// Reads the extended-input opcode.
    pub fn xi_opcode(&self) -> (o: u8)
        ensures
            o == self.spec_xi_opcode(),
    {
        self.xi_opcode
    }

    /// Reads the hostname resolved at construction, if any.
    pub fn hostname(&self) -> (h: &Option<Vec<u8>>)
        ensures
            h.is_some() == self.spec_hostname().is_some(),
            h matches Some(v) ==> self.spec_hostname() == Some(v@),
    {
        &self.hostname
    }

    /// Assembles a fresh connection around the construction-time caches.
    /// No window exists yet, so the mailbox map starts empty.
    pub fn new(atoms: Atoms, xi_opcode: u8, hostname: Option<Vec<u8>>) -> (c: Connection)
        ensures
            c@ == Map::<u32, Seq<Event>>::empty(),
            c.spec_atoms() == atoms,
            c.spec_xi_opcode() == xi_opcode,
            c.spec_hostname() == (match hostname {
                Some(h) => Some::<Seq<u8>>(h@),
                None => None::<Seq<u8>>,
            }),
    {
        let c = Connection { atoms, xi_opcode, hostname, mailboxes: HashMap::new() };
        proof {
            assert(c@ =~= Map::<u32, Seq<Event>>::empty());
        }
        c
    }

    /// Whether a window with this identifier is live on the connection,
    /// that is, owns a mailbox slot.
    pub fn is_live(&self, xid: u32) -> (b: bool)
        ensures
            b == self@.contains_key(xid),
    {
        let b = self.mailboxes.contains_key(&xid);
        proof {
            assert(self@.contains_key(xid) == self.mailboxes@.contains_key(xid));
        }
        b
    }

    /// Registers a fresh, empty mailbox slot for a newly created window.
    /// The slot is inserted even if the caller never polls, so routing
    /// always has a slot to target.
    pub fn register_window(&mut self, xid: u32)
        ensures
            final(self)@ == old(self)@.insert(xid, Seq::<Event>::empty()),
            final(self).spec_atoms() == old(self).spec_atoms(),
            final(self).spec_xi_opcode() == old(self).spec_xi_opcode(),
            final(self).spec_hostname() == old(self).spec_hostname(),
    {
        let fresh: Vec<Event> = Vec::new();
        let _ = self.mailboxes.insert(xid, fresh);
        proof {
            assert(final(self)@ =~= old(self)@.insert(xid, Seq::<Event>::empty()));
        }
    }

    /// Removes a destroyed window's mailbox slot, so that its identifier
    /// is no longer live and no stale slot survives.
    pub fn remove_window(&mut self, xid: u32)
        ensures
            final(self)@ == old(self)@.remove(xid),
            final(self).spec_atoms() == old(self).spec_atoms(),
            final(self).spec_xi_opcode() == old(self).spec_xi_opcode(),
            final(self).spec_hostname() == old(self).spec_hostname(),
    {
        let _ = self.mailboxes.remove(&xid);
        proof {
            assert(final(self)@ =~= old(self)@.remove(xid));
        }
    }

    /// Appends an event to the mailbox of a live target window; an event
    /// for an identifier with no slot is dropped, since there is no owner
    /// to deliver it to.
    pub fn deliver(&mut self, target: u32, ev: Event)
        ensures
            old(self)@.contains_key(target) ==> final(self)@ == old(self)@.insert(
                target,
                old(self)@[target].push(ev),
            ),
            !old(self)@.contains_key(target) ==> final(self)@ == old(self)@,
            final(self).spec_atoms() == old(self).spec_atoms(),
            final(self).spec_xi_opcode() == old(self).spec_xi_opcode(),
            final(self).spec_hostname() == old(self).spec_hostname(),
    {
        proof {
            assert(self@.contains_key(target) == self.mailboxes@.contains_key(target));
        }
        if self.mailboxes.contains_key(&target) {
            let mut queue = self.mailboxes.remove(&target).unwrap();
            queue.push(ev);
            let _ = self.mailboxes.insert(target, queue);
            proof {
                assert(final(self)@ =~= old(self)@.insert(target, old(self)@[target].push(ev)));
            }
        }
    }

    /// Empties the polling window's mailbox slot and hands its contents
    /// over, leaving the (still live) slot empty. A window with no slot
    /// gets nothing, and nothing changes.
    pub fn take_mailbox(&mut self, xid: u32) -> (taken: Vec<Event>)
        ensures
            old(self)@.contains_key(xid) ==> {
                &&& taken@ == old(self)@[xid]
                &&& final(self)@ == old(self)@.insert(xid, Seq::<Event>::empty())
            },
            !old(self)@.contains_key(xid) ==> {
                &&& taken@ == Seq::<Event>::empty()
                &&& final(self)@ == old(self)@
            },
            final(self).spec_atoms() == old(self).spec_atoms(),
            final(self).spec_xi_opcode() == old(self).spec_xi_opcode(),
            final(self).spec_hostname() == old(self).spec_hostname(),
    {
        proof {
            assert(self@.contains_key(xid) == self.mailboxes@.contains_key(xid));
        }
        if self.mailboxes.contains_key(&xid) {
            let taken = self.mailboxes.remove(&xid).unwrap();
            let fresh: Vec<Event> = Vec::new();
            let _ = self.mailboxes.insert(xid, fresh);
            proof {
                assert(final(self)@ =~= old(self)@.insert(xid, Seq::<Event>::empty()));
            }
            taken
        } else {
            Vec::new()
        }
    }
}

/// Law: across any sequence of create and destroy operations the mailbox
/// map holds exactly one entry per live window. Registering a window adds
/// exactly its own slot, destroying a window removes exactly its own slot,
/// and no stale slot survives the destroy.
pub proof fn lemma_mailbox_registry_exact(m: Map<u32, Seq<Event>>, xid: u32)
    ensures
        m.insert(xid, Seq::<Event>::empty()).dom() =~= m.dom().insert(xid),
        m.remove(xid).dom() =~= m.dom().remove(xid),
        !m.remove(xid).dom().contains(xid),
{
}

} // verus!
