//! A prediction session for a simulated game ball.
//!
//! A [`session::Session`] owns the arena setting and the ball. It takes
//! snapshots of the live game, asks for the ball to be advanced tick by tick,
//! and turns raw trajectories into the two shapes that consumers read.
//! Numbers are carried as the bit patterns of their binary32 encoding. The
//! session decides; the physics engine stays with the caller, who runs it
//! between the two halves of a call.

pub mod arithmetic;
pub mod ball;
pub mod binary32;
pub mod error;
pub mod prediction;
pub mod preset;
pub mod session;
pub mod snapshot;
pub mod telemetry;
pub mod theorems;
