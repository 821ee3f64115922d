//! The shared frame buffer: sizing, capture-request validation, placement
//! of captured pixel bytes, and teardown.

use vstd::prelude::*;
use vstd::pervasive::VecAdditionalExecFns;
use crate::error::CaptureError;
use crate::geometry::Rect;
use crate::geometry::valid_capture_rect;
use crate::session::Session;

verus! {

/// Plane mask selecting every plane of the pixel format.
pub const PLANE_MASK_ALL: u32 = 0xFFFF_FFFF;

/// Wire encoding of the packed ("Z") pixel format, the only format this
/// library captures in: whole pixels, not bit planes.
pub const FORMAT_Z_PIXMAP: u8 = 2;

/// The byte footprint of a full frame of `w` by `h` pixels at the fixed
/// 32-bit packed pixel format: four bytes per pixel, rows tightly packed.
pub open spec fn frame_bytes(w: u16, h: u16) -> int {
    w * h * 4
}

/// The byte footprint of a capture of rectangle `r`, written tightly
/// packed at the buffer's origin.
pub open spec fn rect_bytes(r: Rect) -> int {
    r.width * r.height * 4
}

/// The local memory a capture is written into, together with the
/// server-side registration it mirrors.
///
/// The backing bytes and the registration live and die together: the
/// buffer is created attached, and [`FrameBuffer::close`] both marks the
/// registration gone and is the only way to leave the attached state.
/// The pixel bytes are opaque to this layer (BGRX/RGBA-compatible, in the
/// server's own byte order); no channel reordering is performed.
pub struct FrameBuffer {
    /// The frame's bytes, exactly one full screen at 4 bytes per pixel.
    pub data: Vec<u8>,
    /// Width in pixels the buffer was sized for.
    pub width: u16,
    /// Height in pixels the buffer was sized for.
    pub height: u16,
    /// The server-allocated segment identifier this buffer is registered
    /// under; session-scoped, never shared across sessions.
    pub segment: u32,
    /// Whether the server-side registration is still live.
    pub attached: bool,
}

impl FrameBuffer {
    /// The buffer's one invariant: its length is exactly
    /// `width * height * 4` and never changes after creation.
    pub open spec fn wf(self) -> bool {
        self.data@.len() == frame_bytes(self.width, self.height)
    }

    /// Detaches the buffer: the server-side registration is gone and no
    /// further capture may target it.  Safe to call more than once — the
    /// outcome does not depend on whether the buffer was still attached,
    /// and the bytes and geometry are left untouched.
    pub fn close(&mut self)
        ensures
            !final(self).attached,
            final(self).data@ == old(self).data@,
            final(self).width == old(self).width,
            final(self).height == old(self).height,
            final(self).segment == old(self).segment,
    {
        self.attached = false;
    }
}

/// Allocates and zeroes the backing storage for one full-screen frame of
/// the session's fixed geometry and records the server-allocated segment
/// identifier it will be registered under.
///
/// Succeeds exactly when the frame's byte footprint fits an in-memory
/// allocation; the only failure is `ResourceExhausted`.  On success the
/// buffer is attached, sized to `width * height * 4` bytes exactly, and
/// zero-filled.
pub fn create_buffer(session: &Session, segment: u32) -> (r: Result<FrameBuffer, CaptureError>)
    requires
        session.open,
    ensures
        r is Ok <==> frame_bytes(session.width, session.height) <= usize::MAX,
        r is Ok ==> {
            &&& r->Ok_0.wf()
            &&& r->Ok_0.width == session.width
            &&& r->Ok_0.height == session.height
            &&& r->Ok_0.segment == segment
            &&& r->Ok_0.attached
            &&& forall|j: int| 0 <= j < r->Ok_0.data@.len() ==> r->Ok_0.data@[j] == 0u8
        },
        r is Err ==> r->Err_0 == CaptureError::ResourceExhausted,
{
    let w64: u64 = session.width as u64;
    let h64: u64 = session.height as u64;
    proof {
        assert(w64 * h64 <= 65535 * 65535) by (nonlinear_arith)
            requires
                w64 <= 65535,
                h64 <= 65535,
        ;
    }
    let n64: u64 = w64 * h64 * 4;
    if n64 > usize::MAX as u64 {
        return Err(CaptureError::ResourceExhausted);
    }
    let n: usize = n64 as usize;
    let mut data: Vec<u8> = Vec::new();
    let mut i: usize = 0;
    while i < n
        invariant
            i <= n,
            data@.len() == i,
            forall|j: int| 0 <= j < i ==> data@[j] == 0u8,
        decreases n - i,
    {
        data.push(0u8);
        i = i + 1;
    }
    Ok(FrameBuffer { data, width: session.width, height: session.height, segment, attached: true })
}

/// A fully validated image-fetch request, ready to be sent to the server
/// verbatim: the target rectangle, the full plane mask, the packed pixel
/// format, and the destination segment at offset zero.
#[derive(Clone, Copy, Debug, PartialEq, Eq, Structural)]
pub struct ImageRequest {
    pub drawable: u32,
    pub x: i16,
    pub y: i16,
    pub width: u16,
    pub height: u16,
    pub plane_mask: u32,
    pub format: u8,
    pub segment: u32,
    pub offset: u32,
}

/// The rectangle a capture call actually targets: the caller's rectangle
/// when one was given, the buffer's full extent otherwise.
pub open spec fn effective_rect(rect: Option<Rect>, b: FrameBuffer) -> Rect {
    match rect {
        Some(r) => r,
        None => Rect { x: 0, y: 0, width: b.width, height: b.height },
    }
}

/// What a capture call decides before anything reaches the wire: a closed
/// session or detached buffer is `InvalidState`; a rectangle that violates
/// the geometry constraints is `InvalidArgument`; otherwise the exact
/// request that will be sent.
pub open spec fn capture_decision(s: Session, b: FrameBuffer, r: Rect) -> Result<
    ImageRequest,
    CaptureError,
> {
    if !s.open || !b.attached {
        Err(CaptureError::InvalidState)
    } else if !valid_capture_rect(r, b.width, b.height) {
        Err(CaptureError::InvalidArgument)
    } else {
        Ok(
            ImageRequest {
                drawable: s.root,
                x: r.x,
                y: r.y,
                width: r.width,
                height: r.height,
                plane_mask: PLANE_MASK_ALL,
                format: FORMAT_Z_PIXMAP,
                segment: b.segment,
                offset: 0,
            },
        )
    }
}

/// Validates a capture call and builds the request to send, without any
/// network traffic: a rejected rectangle never reaches the server.
///
/// `rect` defaults to the buffer's full extent.  The result equals
/// [`capture_decision`] on the effective rectangle: state errors take
/// precedence over geometry errors, and on success every request field is
/// pinned.
pub fn prepare_capture(session: &Session, buffer: &FrameBuffer, rect: Option<Rect>) -> (r: Result<
    ImageRequest,
    CaptureError,
>)
    ensures
        r == capture_decision(*session, *buffer, effective_rect(rect, *buffer)),
{
    let target = match rect {
        Some(r) => r,
        None => Rect::full(buffer.width, buffer.height),
    };
    if !session.is_open() || !buffer.attached {
        Err(CaptureError::InvalidState)
    } else if !target.is_valid_for(buffer.width, buffer.height) {
        Err(CaptureError::InvalidArgument)
    } else {
        Ok(
            ImageRequest {
                drawable: session.root,
                x: target.x,
                y: target.y,
                width: target.width,
                height: target.height,
                plane_mask: PLANE_MASK_ALL,
                format: FORMAT_Z_PIXMAP,
                segment: buffer.segment,
                offset: 0,
            },
        )
    }
}

/// The frame's bytes after a capture of footprint `bytes` completed: the
/// captured rows land tightly packed at the buffer's origin and every byte
/// past them keeps its prior value.
pub open spec fn write_at_origin(data: Seq<u8>, bytes: Seq<u8>) -> Seq<u8> {
    bytes + data.skip(bytes.len() as int)
}

/// Places the pixel bytes the server wrote for `rect` into the frame
/// buffer, relative to the buffer's own origin (not the screen's).
///
/// The same state and geometry checks a capture makes are repeated here,
/// and a payload whose length is not exactly `rect.width * rect.height * 4`
/// is a malformed reply (`ProtocolError`).  There is no partial success:
/// on any error the frame's bytes are exactly what they were, and on
/// success they are exactly [`write_at_origin`] of the old bytes and the
/// payload.
pub fn store_frame(buffer: &mut FrameBuffer, rect: Rect, bytes: &Vec<u8>) -> (r: Result<
    (),
    CaptureError,
>)
    requires
        old(buffer).wf(),
    ensures
        final(buffer).wf(),
        final(buffer).width == old(buffer).width,
        final(buffer).height == old(buffer).height,
        final(buffer).segment == old(buffer).segment,
        final(buffer).attached == old(buffer).attached,
        !old(buffer).attached ==> r == Err::<(), CaptureError>(CaptureError::InvalidState)
            && final(buffer).data@ == old(buffer).data@,
        old(buffer).attached && !valid_capture_rect(rect, old(buffer).width, old(buffer).height)
            ==> r == Err::<(), CaptureError>(CaptureError::InvalidArgument) && final(buffer).data@
            == old(buffer).data@,
        old(buffer).attached && valid_capture_rect(rect, old(buffer).width, old(buffer).height)
            && bytes@.len() != rect_bytes(rect) ==> r == Err::<(), CaptureError>(
            CaptureError::ProtocolError,
        ) && final(buffer).data@ == old(buffer).data@,
        old(buffer).attached && valid_capture_rect(rect, old(buffer).width, old(buffer).height)
            && bytes@.len() == rect_bytes(rect) ==> r == Ok::<(), CaptureError>(())
            && final(buffer).data@ == write_at_origin(old(buffer).data@, bytes@),
{
    if !buffer.attached {
        return Err(CaptureError::InvalidState);
    }
    if !rect.is_valid_for(buffer.width, buffer.height) {
        return Err(CaptureError::InvalidArgument);
    }
    proof {
        assert(rect.width * rect.height * 4 <= buffer.width * buffer.height * 4)
            by (nonlinear_arith)
            requires
                0 <= rect.width <= buffer.width,
                0 <= rect.height <= buffer.height,
        ;
    }
    let cap: usize = buffer.data.len();
    let rw64: u64 = rect.width as u64;
    let rh64: u64 = rect.height as u64;
    proof {
        assert(rw64 * rh64 <= 65535 * 65535) by (nonlinear_arith)
            requires
                rw64 <= 65535,
                rh64 <= 65535,
        ;
    }
    let n64: u64 = rw64 * rh64 * 4;
    let n: usize = n64 as usize;
    if bytes.len() != n {
        return Err(CaptureError::ProtocolError);
    }
    let mut i: usize = 0;
    while i < n
        invariant
            i <= n,
            n == bytes@.len(),
            n <= buffer.data@.len(),
            buffer.data@.len() == old(buffer).data@.len(),
            buffer.width == old(buffer).width,
            buffer.height == old(buffer).height,
            buffer.segment == old(buffer).segment,
            buffer.attached == old(buffer).attached,
            forall|j: int| 0 <= j < i ==> buffer.data@[j] == bytes@[j],
            forall|j: int| i <= j < buffer.data@.len() ==> buffer.data@[j] == old(buffer).data@[j],
        decreases n - i,
    {
        let v = bytes[i];
        buffer.data.set(i, v);
        i = i + 1;
    }
    proof {
        assert(buffer.data@ =~= write_at_origin(old(buffer).data@, bytes@));
    }
    Ok(())
}

/// Law: once a buffer is closed, every capture against it — whatever the
/// session, whatever the rectangle — is rejected with `InvalidState`; a
/// capture after teardown never silently succeeds.
pub proof fn lemma_no_capture_after_close(s: Session, b: FrameBuffer, r: Rect)
    ensures
        capture_decision(s, (FrameBuffer { attached: false, ..b }), r) == Err::<
            ImageRequest,
            CaptureError,
        >(CaptureError::InvalidState),
{
}

/// Law: recapturing an unchanged region is idempotent — storing the same
/// server payload twice leaves the frame byte-identical to storing it
/// once.
pub proof fn lemma_recapture_identical(data: Seq<u8>, bytes: Seq<u8>)
    requires
        bytes.len() <= data.len(),
    ensures
        write_at_origin(write_at_origin(data, bytes), bytes) == write_at_origin(data, bytes),
{
    assert(write_at_origin(write_at_origin(data, bytes), bytes) =~= write_at_origin(data, bytes));
}

/// Law: a capture taken after the screen's content changed is visibly
/// fresh — if the server delivers a different payload for the same
/// rectangle, the stored frames differ in at least one byte.
pub proof fn lemma_changed_frame_differs(data: Seq<u8>, bytes1: Seq<u8>, bytes2: Seq<u8>)
    requires
        bytes1.len() == bytes2.len(),
        bytes1.len() <= data.len(),
        bytes1 != bytes2,
    ensures
        exists|i: int|
            0 <= i < write_at_origin(data, bytes1).len() && write_at_origin(data, bytes1)[i]
                != write_at_origin(data, bytes2)[i],
        write_at_origin(data, bytes1) != write_at_origin(data, bytes2),
{
    assert(exists|i: int| 0 <= i < bytes1.len() && bytes1[i] != bytes2[i]) by {
        if forall|i: int| 0 <= i < bytes1.len() ==> bytes1[i] == bytes2[i] {
            assert(bytes1 =~= bytes2);
            assert(false);
        }
    }
    let i = choose|i: int| 0 <= i < bytes1.len() && bytes1[i] != bytes2[i];
    assert(write_at_origin(data, bytes1)[i] == bytes1[i]);
    assert(write_at_origin(data, bytes2)[i] == bytes2[i]);
}

} // verus!
