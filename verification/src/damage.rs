//! The change-tracking state machine: damage registration, event
//! classification, and whole-region acknowledgment.

use vstd::prelude::*;
use crate::error::CaptureError;
use crate::geometry::Rect;
use crate::session::Session;

verus! {

/// Report granularity asking the server for only the incremental changed
/// region per event, never the full accumulated damage.
pub const REPORT_DELTA_RECTANGLES: u8 = 1;

/// The sentinel region handle meaning "the whole reported area" in an
/// acknowledgment.
pub const REGION_WHOLE: u32 = 0;

/// One event pulled off the session's stream, already classified: either
/// a damage notification carrying the changed rectangle, or anything else
/// (which the loop ignores).  New event kinds extend this enum rather
/// than growing ad hoc branches at the call sites.
#[derive(Clone, Copy, Debug, PartialEq, Eq, Structural)]
pub enum TrackerEvent {
    Damage { area: Rect },
    Other,
}

/// The acknowledgment owed to the server after a damage report: subtract
/// the whole reported area from its damage accumulation, so the next
/// event reports only newly changed pixels.
#[derive(Clone, Copy, Debug, PartialEq, Eq, Structural)]
pub struct SubtractRequest {
    pub damage_id: u32,
    pub repair: u32,
    pub parts: u32,
}

/// What the event loop does with one incoming event: hand the changed
/// rectangle to the caller (acknowledging it first), or keep waiting.
#[derive(Clone, Copy, Debug, PartialEq, Eq, Structural)]
pub enum NextAction {
    Deliver { changed: Rect, ack: SubtractRequest },
    Wait,
}

/// The request that creates the server-side damage object for a surface,
/// at delta-rectangles granularity.
#[derive(Clone, Copy, Debug, PartialEq, Eq, Structural)]
pub struct RegisterRequest {
    pub damage_id: u32,
    pub drawable: u32,
    pub level: u8,
}

/// A live damage registration on one surface.  Created active; an
/// explicit stop or a transport failure terminates it for good — a caller
/// wanting more events registers a fresh tracker.
#[derive(Clone, Copy, Debug, PartialEq, Eq, Structural)]
pub struct DamageTracker {
    /// The server-allocated identifier of the damage object;
    /// session-scoped, never shared across sessions.
    pub damage_id: u32,
    /// The surface being watched.
    pub surface: u32,
    /// Whether events are still being consumed.
    pub active: bool,
}

/// Begins change tracking on `surface`: records the server-allocated
/// damage identifier and comes back active.  The companion
/// [`DamageTracker::register_request`] is what the server must be told.
pub fn register_damage(session: &Session, surface: u32, damage_id: u32) -> (t: DamageTracker)
    requires
        session.open,
    ensures
        t == (DamageTracker { damage_id, surface, active: true }),
{
    DamageTracker { damage_id, surface, active: true }
}

impl DamageTracker {
    /// Whether the tracker still consumes events.
    pub fn is_active(&self) -> (r: bool)
        ensures
            r == self.active,
    {
        self.active
    }

    /// The creation request for this tracker's server-side damage object:
    /// always at delta-rectangles granularity, so each event carries only
    /// the incremental changed region.
    pub fn register_request(&self) -> (r: RegisterRequest)
        ensures
            r == (RegisterRequest {
                damage_id: self.damage_id,
                drawable: self.surface,
                level: REPORT_DELTA_RECTANGLES,
            }),
    {
        RegisterRequest {
            damage_id: self.damage_id,
            drawable: self.surface,
            level: REPORT_DELTA_RECTANGLES,
        }
    }

    /// Classifies one incoming event.  A damage notification is delivered
    /// to the caller exactly as received — no accumulation or merging —
    /// together with the whole-region acknowledgment that must reach the
    /// server before the next wait.  Every other event is ignored and the
    /// loop keeps waiting; the tracker itself never changes here.
    pub fn next_action(&self, event: TrackerEvent) -> (r: NextAction)
        requires
            self.active,
        ensures
            event matches TrackerEvent::Damage { area } ==> r == (NextAction::Deliver {
                changed: area,
                ack: SubtractRequest {
                    damage_id: self.damage_id,
                    repair: REGION_WHOLE,
                    parts: REGION_WHOLE,
                },
            }),
            event is Other ==> r == NextAction::Wait,
    {
        match event {
            TrackerEvent::Damage { area } => NextAction::Deliver {
                changed: area,
                ack: SubtractRequest {
                    damage_id: self.damage_id,
                    repair: REGION_WHOLE,
                    parts: REGION_WHOLE,
                },
            },
            TrackerEvent::Other => NextAction::Wait,
        }
    }

    /// Ends the loop deliberately.  Safe to call more than once; the
    /// identifiers stay readable for teardown.
    pub fn stop(&mut self)
        ensures
            !final(self).active,
            final(self).damage_id == old(self).damage_id,
            final(self).surface == old(self).surface,
    {
        self.active = false;
    }

    /// Records an unrecoverable transport failure while waiting for
    /// events: the loop is over — never retried internally — and the
    /// error to surface to the caller is `ConnectionLost`.
    pub fn connection_lost(&mut self) -> (e: CaptureError)
        ensures
            e == CaptureError::ConnectionLost,
            !final(self).active,
            final(self).damage_id == old(self).damage_id,
            final(self).surface == old(self).surface,
    {
        self.active = false;
        CaptureError::ConnectionLost
    }
}

} // verus!
