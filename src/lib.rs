//! Driver library for a radiation-counter board on a command/response bus.
//!
//! The library holds the command catalog, the decoders of the board's
//! responses, the windowed accumulation of radiation counts, and a device
//! controller that runs each operation through a [`Bus`] supplied by the
//! caller.
use vstd::prelude::*;

pub mod aggregator;
pub mod catalog;
pub mod command;
pub mod commands;
pub mod objects;
pub mod radiation_counter;
pub mod telemetry;

pub use crate::command::Command;
pub use crate::commands::last_error::ErrorCode;
pub use crate::objects::RCHk;
pub use crate::radiation_counter::{Bus, CuavaRadiationCounter, RadiationCounter, Timing};
pub use crate::telemetry::reset as ResetTelemetry;

verus! {

/// Describes the errors which may result from using the radiation counter.
#[derive(Debug, Clone, PartialEq)]
pub enum CounterError {
    /// No error
    NoError,
    /// Generic error condition
    GenericError,
    /// The bus transport failed; carries the transport's own error kind
    I2CError(std::io::ErrorKind),
    /// A response did not have the length declared for its command
    ParsingFailure {
        /// Source where invalid data was received
        source: String,
    },
    /// A radiation counter command failed
    CommandFailure {
        /// Command which failed
        command: String,
    },
}

/// Result type of the radiation counter operations.
pub type CounterResult<T> = core::result::Result<T, CounterError>;

/// Declares `std::io::ErrorKind`, the transport's error kind, which the
/// library carries through to the caller unchanged.
#[verifier::external_type_specification]
#[verifier::external_body]
pub struct ExIoErrorKind(std::io::ErrorKind);

/// Relies on `std::io::ErrorKind` being `Copy`: its `clone` returns the same
/// kind.
pub assume_specification[ <std::io::ErrorKind as Clone>::clone ](e: &std::io::ErrorKind) -> (r:
    std::io::ErrorKind)
    ensures
        r == *e,
;

/// True when `e` is a parsing failure naming `source`.
pub open spec fn is_parsing_failure(e: CounterError, source: Seq<char>) -> bool {
    e matches CounterError::ParsingFailure { source: s } && s@ == source
}

impl CounterError {
    /// Builds a [`CounterError::ParsingFailure`] naming `source`.
    pub fn parsing_failure(source: &str) -> (r: CounterError)
        ensures
            is_parsing_failure(r, source@),
    {
        CounterError::ParsingFailure { source: source.to_owned() }
    }
}

} // verus!
