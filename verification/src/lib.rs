//! Supervisor for a single sidecar server process: launching, liveness
//! polling with a consecutive-failure threshold, restart orchestration,
//! and status reporting.
//!
//! The supervisor itself is pure state-machine logic: the host hands it
//! the outcome of each spawn attempt and each liveness probe, and it
//! answers with the next state and the event to publish. All process and
//! network I/O stays with the host.

pub mod laws;
pub mod model;
pub mod state;
pub mod supervisor;
