//! A windowing library core for an X11-style display server, built around one
//! shared connection that is multiplexed across many windows.
//!
//! The crate models the connection state (interned atoms, extension metadata,
//! the per-window event mailboxes), classifies native events into abstract
//! [`event::Event`] values, and routes each classified event to the correct
//! window's buffer. The native calls themselves (dynamic library loading,
//! protocol requests) live outside this crate; every decision taken on their
//! results is specified and verified here.

pub mod caps;
pub mod connection;
pub mod demux;
pub mod error;
pub mod event;
pub mod keymap;
pub mod lifecycle;
pub mod window;
