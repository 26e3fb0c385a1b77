//! Synchronization core for an interactive operator console over a
//! container-orchestration control plane.
//!
//! The crate owns the logic of such a console: the session state machine
//! (connection, active context, known contexts), the projection of raw
//! resource records into display-ready rows, and the per-kind fetch /
//! refresh state machine that a presentation loop drives once per tick.
//! All network I/O, rendering and task spawning live outside; they feed
//! this crate plain values and carry out the commands it returns.

pub mod clock;
pub mod resources;
pub mod session;
pub mod sync;
pub mod text;
pub mod views;
