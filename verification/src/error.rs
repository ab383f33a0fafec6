//! The ways a session call can fail.

use vstd::prelude::*;

verus! {

/// Why a session refused a call. A refused call leaves the session as it was.
#[derive(Clone, Copy, Debug, PartialEq, Eq, Structural)]
pub enum SessionError {
    /// No arena has been loaded yet.
    SessionUninitialized,
    /// The snapshot lacks a field that the session needs.
    InvalidTelemetry,
    /// The collision shape carries a tag that names no known shape.
    UnknownShapeType,
    /// An earlier exclusive operation never completed; only a fresh load recovers.
    SessionPoisoned,
}

impl SessionError {
    /// A sentence for the caller of the failed operation.
    pub fn message(&self) -> (r: &'static str)
        ensures
            r@ == (match *self {
                SessionError::SessionUninitialized =>
                    "GAME is unset. Call a function like load_standard first."@,
                SessionError::InvalidTelemetry =>
                    "The game packet is missing a required field."@,
                SessionError::UnknownShapeType =>
                    "The ball's collision shape is neither a box, a sphere nor a cylinder."@,
                SessionError::SessionPoisoned =>
                    "The session was left half-updated. Load an arena again."@,
            }),
    {
        match self {
            SessionError::SessionUninitialized =>
                "GAME is unset. Call a function like load_standard first.",
            SessionError::InvalidTelemetry => "The game packet is missing a required field.",
            SessionError::UnknownShapeType =>
                "The ball's collision shape is neither a box, a sphere nor a cylinder.",
            SessionError::SessionPoisoned =>
                "The session was left half-updated. Load an arena again.",
        }
    }
}

} // verus!
