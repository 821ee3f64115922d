//! Protocol-version negotiation for the shared-memory extension.

use vstd::prelude::*;

verus! {

/// A shared-memory extension protocol version as reported by the server.
#[derive(Clone, Copy, Debug, PartialEq, Eq, Structural)]
pub struct ShmVersion {
    pub major: u16,
    pub minor: u16,
}

/// Whether a server at this protocol version can attach a pre-existing
/// file descriptor supplied by the client.  Versions before 1.2 only
/// support legacy kernel shared-memory keys, which this library does not
/// use.
pub open spec fn fd_attach_supported(v: ShmVersion) -> bool {
    v.major > 1 || (v.major == 1 && v.minor >= 2)
}

impl ShmVersion {
    /// Executable form of the negotiation test.
    pub fn supports_fd_attach(&self) -> (r: bool)
        ensures
            r == fd_attach_supported(*self),
    {
        self.major > 1 || (self.major == 1 && self.minor >= 2)
    }
}

} // verus!
