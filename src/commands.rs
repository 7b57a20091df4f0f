//! Commands of the board and the decoders of their responses.
//!
//! Every response that carries a value starts with a status byte; the value
//! follows it.
pub mod get_comms_watchdog_period;
pub mod last_error;
pub mod manual_reset;
pub mod radiation_count;
pub mod reset_comms_watchdog;
pub mod set_comms_watchdog_period;
