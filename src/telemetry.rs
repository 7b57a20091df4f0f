//! Telemetry of the board: analog channels and reset counters.
pub mod counter;
pub mod reset;
