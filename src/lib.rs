//! Supervision logic for running a user script through an external tool:
//! staging names, error classification, output relaying and the
//! per-request orchestration state machine. The I/O itself is performed
//! by the host, which feeds the outcome of each step back in as an event.

pub mod errors;
pub mod staging;
pub mod relay;
pub mod session;
pub mod runs;
