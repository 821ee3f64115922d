//! Session lifecycle: display-identifier resolution, capability
//! negotiation, and explicit teardown.

use vstd::prelude::*;
use crate::error::CaptureError;
use crate::version::ShmVersion;
use crate::version::fd_attach_supported;

verus! {

/// One open connection to a display server together with its negotiated
/// capabilities.  The geometry is fixed for the session's whole lifetime:
/// a display reconfiguration requires a reconnect, never a resize.
///
/// The unverified shell owns the live socket; it hands the handshake's
/// results (geometry, root surface handle, protocol version) to
/// [`open_session`], which decides whether a usable session exists.
pub struct Session {
    /// The identifier of the display this session is connected to.
    pub display: String,
    /// Root-surface width in pixels, as reported at negotiation time.
    pub width: u16,
    /// Root-surface height in pixels, as reported at negotiation time.
    pub height: u16,
    /// Handle of the root surface captures are taken from.
    pub root: u32,
    /// The shared-memory protocol version the server reported.
    pub version: ShmVersion,
    /// Whether the session is still open; cleared exactly once by
    /// [`Session::close`] and never set again.
    pub open: bool,
}

impl Session {
    /// A session is well formed when it was negotiated successfully: its
    /// server supports file-descriptor attachment.  Every session built
    /// by [`open_session`] satisfies this, so a capability check never
    /// needs to be repeated per call.
    pub open spec fn wf(self) -> bool {
        fd_attach_supported(self.version)
    }

    /// Whether the session is still open for buffer and capture work.
    pub fn is_open(&self) -> (r: bool)
        ensures
            r == self.open,
    {
        self.open
    }

    /// Tears the session down.  Safe to call more than once: the result
    /// does not depend on whether the session was already closed, and
    /// nothing besides the `open` flag changes.
    pub fn close(&mut self)
        ensures
            !final(self).open,
            final(self).display@ == old(self).display@,
            final(self).width == old(self).width,
            final(self).height == old(self).height,
            final(self).root == old(self).root,
            final(self).version == old(self).version,
    {
        self.open = false;
    }
}

/// Picks the display identifier to connect to.  An explicit override wins;
/// otherwise the value found in the caller's environment is used; the
/// absence of both is an error, never a silent fall-back to a hardcoded
/// display.
pub fn resolve_display(explicit: Option<String>, env_default: Option<String>) -> (r: Result<
    String,
    CaptureError,
>)
    ensures
        explicit is Some ==> r is Ok && r->Ok_0@ == explicit->Some_0@,
        explicit is None && env_default is Some ==> r is Ok && r->Ok_0@ == env_default->Some_0@,
        explicit is None && env_default is None ==> r == Err::<String, CaptureError>(
            CaptureError::ConnectionError,
        ),
{
    match explicit {
        Some(d) => Ok(d),
        None => match env_default {
            Some(d) => Ok(d),
            None => Err(CaptureError::ConnectionError),
        },
    }
}

/// Decides whether the handshake's results make a usable session.
///
/// Succeeds exactly when the reported shared-memory version supports
/// attaching a pre-existing file descriptor (major version above 1, or
/// 1.2 and later); on success every field of the session records the
/// handshake verbatim and the session is open.  An unsupported version is
/// a fixed server capability, so the failure is final and never retried.
pub fn open_session(display: String, width: u16, height: u16, root: u32, version: ShmVersion) -> (r:
    Result<Session, CaptureError>)
    ensures
        r is Ok <==> fd_attach_supported(version),
        r is Ok ==> {
            &&& r->Ok_0.display@ == display@
            &&& r->Ok_0.width == width
            &&& r->Ok_0.height == height
            &&& r->Ok_0.root == root
            &&& r->Ok_0.version == version
            &&& r->Ok_0.open
            &&& r->Ok_0.wf()
        },
        r is Err ==> r->Err_0 == CaptureError::UnsupportedCapability,
{
    if version.supports_fd_attach() {
        Ok(Session { display, width, height, root, version, open: true })
    } else {
        Err(CaptureError::UnsupportedCapability)
    }
}

} // verus!
