//! Client-side orchestration of containerized workloads.
//!
//! The crate composes a launch configuration from builder-style options and an
//! optional override payload, tracks the lifecycle of a single container
//! (unconstructed, created, running, terminal), classifies the engine's
//! textual status reports, and resolves a termination-notification stream
//! into a definitive success or failure outcome.
//!
//! The remote container engine itself is a collaborator: every function here
//! is pure, and the values it consumes (status strings, wait-stream messages,
//! probed host resources) are handed in by the caller that performs the
//! actual transport.

pub mod compose;
pub mod container;
pub mod requirements;
pub mod wait;
