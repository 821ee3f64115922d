//! The error taxonomy shared by every operation of the library.

use vstd::prelude::*;

verus! {

/// Every way a session, buffer, capture or damage operation can fail.
///
/// Each variant names one distinct situation, so a caller can tell a
/// precondition violation apart from a genuine external failure:
/// - `ConnectionError`: no display server is reachable at the given
///   identifier (or no identifier was supplied at all).
/// - `UnsupportedCapability`: the server's shared-memory extension is too
///   old to attach a caller-supplied file descriptor.
/// - `ResourceExhausted`: the local backing storage for a frame cannot be
///   sized or mapped.
/// - `ProtocolError`: the server rejected a request, or its reply was
///   malformed (a stale segment after teardown, a short pixel payload).
/// - `InvalidArgument`: a caller-supplied rectangle violates the geometry
///   constraints.
/// - `InvalidState`: an operation was attempted after teardown.
/// - `ConnectionLost`: the transport failed mid-stream while waiting for
///   events.
#[derive(Clone, Copy, Debug, PartialEq, Eq, Structural)]
pub enum CaptureError {
    ConnectionError,
    UnsupportedCapability,
    ResourceExhausted,
    ProtocolError,
    InvalidArgument,
    InvalidState,
    ConnectionLost,
}

} // verus!
