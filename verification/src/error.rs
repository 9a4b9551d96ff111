//! The error taxonomy surfaced by connection and window construction.

use vstd::prelude::*;

verus! {

/// The complete error surface exposed to callers of connection and window
/// construction. Every native failure is classified into one of these four
/// values; none of them is retriable at this layer.
#[derive(Clone, Copy, Debug, PartialEq, Eq, Structural)]
pub enum Error {
    /// Allocation, identifier or memory exhaustion on either side of the wire.
    SystemResources,
    /// A required protocol extension or capability is absent.
    Unsupported,
    /// Malformed parameters, or a protocol-level rejection not attributable
    /// to resources.
    Invalid,
    /// A defined-unreachable or undiagnosable native failure.
    Unknown,
}

/// The native connection reports no error.
pub const CONN_OK: i32 = 0;

/// The native connection was closed because a required extension is not
/// supported.
pub const CONN_CLOSED_EXT_NOTSUPPORTED: i32 = 2;

/// The native connection was closed because memory is insufficient.
pub const CONN_CLOSED_MEM_INSUFFICIENT: i32 = 3;

/// How a native connection error code is classified: no error is fine, the
/// two specific closure codes map to their own variants, and every other
/// code is a generic invalid-state error.
pub open spec fn spec_classify_connection_error(code: i32) -> Result<(), Error> {
    if code == CONN_OK {
        Ok(())
    } else if code == CONN_CLOSED_EXT_NOTSUPPORTED {
        Err(Error::Unsupported)
    } else if code == CONN_CLOSED_MEM_INSUFFICIENT {
        Err(Error::SystemResources)
    } else {
        Err(Error::Invalid)
    }
}

/// Classifies the integer error code read from the native connection
/// whenever an error condition must be resolved to a caller-visible error.
pub fn classify_connection_error(code: i32) -> (r: Result<(), Error>)
    ensures
        r == spec_classify_connection_error(code),
{
    if code == CONN_OK {
        Ok(())
    } else if code == CONN_CLOSED_EXT_NOTSUPPORTED {
        Err(Error::Unsupported)
    } else if code == CONN_CLOSED_MEM_INSUFFICIENT {
        Err(Error::SystemResources)
    } else {
        Err(Error::Invalid)
    }
}

} // verus!
