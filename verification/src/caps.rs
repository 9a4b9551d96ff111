//! The dynamic capability table: the set of native entry points the
//! subsystem resolved at process start.
//!
//! Resolution happens once and is cached. If the native library cannot be
//! located, any required symbol is absent, or the probe connection is bad,
//! the table is permanently invalid, and everything that would go through
//! it reports a failure instead of dereferencing anything.

use vstd::prelude::*;

use crate::error::Error;

verus! {

/// The resolved capability table's validity. The function pointers
/// themselves live with the caller; the table records the one decision the
/// subsystem ever takes on them, whether every required entry point was
/// resolved.
pub struct Capabilities {
    valid: bool,
}

impl Capabilities {
    /// Whether every required native entry point was resolved.
    pub closed spec fn spec_valid(self) -> bool {
        self.valid
    }

    /// Records the outcome of symbol resolution: the table is valid
    /// exactly when the library handle was obtained, every required
    /// symbol was found, the server reported at least one screen, the
    /// default screen record was found, and the probe connection reported
    /// no error (a non-positive native error code).
    pub fn from_resolution(
        library_loaded: bool,
        symbols_resolved: bool,
        screen_count: i32,
        screen_found: bool,
        error_code: i32,
    ) -> (t: Capabilities)
        ensures
            t.spec_valid() == (library_loaded && symbols_resolved && screen_count > 0
                && screen_found && error_code <= 0),
    {
        Capabilities {
            valid: library_loaded && symbols_resolved && screen_count > 0 && screen_found
                && error_code <= 0,
        }
    }

    /// The permanently invalid table, produced when any resolution step
    /// failed.
    pub fn invalid() -> (t: Capabilities)
        ensures
            !t.spec_valid(),
    {
        Capabilities { valid: false }
    }

    /// Whether the table is valid. An invalid table usually means setup
    /// failed; every operation must check this before going through the
    /// table.
    pub fn is_valid(&self) -> (b: bool)
        ensures
            b == self.spec_valid(),
    {
        self.valid
    }

    /// The safety net in front of every operation: a valid table lets the
    /// call proceed, an invalid one yields an unsupported-capability error
    /// without anything being dereferenced.
    pub fn guard(&self) -> (r: Result<(), Error>)
        ensures
            r == (if self.spec_valid() {
                Ok::<(), Error>(())
            } else {
                Err::<(), Error>(Error::Unsupported)
            }),
    {
        if self.valid {
            Ok(())
        } else {
            Err(Error::Unsupported)
        }
    }
}

} // verus!
