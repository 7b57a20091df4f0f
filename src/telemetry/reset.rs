//! Reset telemetry
//!
//! The board counts its resets by cause. Each counter has its own opcode
//! and rolls over from 255 to 0. The response is a status byte followed by
//! the counter.
use vstd::prelude::*;

use crate::command::Command;
use crate::{is_parsing_failure, CounterError, CounterResult};

verus! {

/// Reset counters
#[derive(Clone, Copy, Debug, Eq, Hash, PartialEq)]
pub enum Type {
    /// Number of brown-out resets
    BrownOut,
    /// Number of automatic software resets: the microcontroller resets
    /// itself after a malfunction, such as being stuck in a loop
    AutomaticSoftware,
    /// Number of manual resets, made with the reset command
    Manual,
    /// Number of communications watchdog resets
    Watchdog,
}

/// Length of a reset counter response.
pub const RESPONSE_LEN: usize = 2;

/// Opcode reading a reset counter.
pub open spec fn opcode(t: Type) -> u8 {
    match t {
        Type::BrownOut => 0x31,
        Type::AutomaticSoftware => 0x32,
        Type::Manual => 0x33,
        Type::Watchdog => 0x34,
    }
}

/// Name given to a malformed reset counter response.
pub open spec fn source() -> Seq<char> {
    "Reset Telemetry"@
}

/// What a reset counter response decodes to.
pub open spec fn spec_parse(data: Seq<u8>) -> Result<u8, ()> {
    if data.len() == RESPONSE_LEN {
        Ok(data[1])
    } else {
        Err(())
    }
}

/// The command reading the counter `reset_type` and the length of its
/// response.
pub fn command(reset_type: Type) -> (r: (Command, usize))
    ensures
        r.0.frame() == (opcode(reset_type), seq![0x00u8]),
        r.1 == RESPONSE_LEN,
{
    let cmd: u8 = match reset_type {
        Type::BrownOut => 0x31,
        Type::AutomaticSoftware => 0x32,
        Type::Manual => 0x33,
        Type::Watchdog => 0x34,
    };
    (Command { cmd, data: vec![0x00] }, RESPONSE_LEN)
}

/// Decodes a reset counter response.
pub fn parse(data: &[u8]) -> (r: CounterResult<u8>)
    ensures
        spec_parse(data@) matches Ok(n) ==> r == Ok::<u8, CounterError>(n),
        spec_parse(data@) is Err ==> r is Err && is_parsing_failure(r->Err_0, source()),
{
    if data.len() == RESPONSE_LEN {
        Ok(data[1])
    } else {
        Err(CounterError::parsing_failure("Reset Telemetry"))
    }
}

} // verus!
