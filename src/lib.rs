//! Bookkeeping for an N-link planar compound pendulum: the chain of bobs,
//! the edits a caller may make to it between ticks, and the detached
//! snapshots a sampler reads out of it.
//!
//! The chain is generic over the number type `R` that holds lengths,
//! masses, angles and positions; the library never computes with those
//! values, it only moves them, so every statement here holds whatever `R`
//! is instantiated with.
pub mod bob;
pub mod pendulum;
pub mod snapshot;

pub use bob::{Bob, Coordinate};
pub use pendulum::{IndexOutOfBounds, Pendulum};
pub use snapshot::{BobState, PendulumState};
