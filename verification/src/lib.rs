//! Screen-capture session logic for a shared-memory capture pipeline.
//!
//! The library holds the verified core of a screen grabber: capability
//! negotiation, frame-buffer geometry and lifecycle, capture-request
//! validation, and the damage-tracking state machine.  The unverified
//! shell that talks to a live display server lives outside the library
//! and feeds plain values (geometry, protocol versions, pixel bytes,
//! events) in and out of these functions.

pub mod buffer;
pub mod damage;
pub mod error;
pub mod geometry;
pub mod session;
pub mod version;
