//! Get communications watchdog period
//!
//! Reads the watchdog period that is set, in minutes. The response is a
//! status byte followed by the period.
use vstd::prelude::*;

use crate::command::Command;
use crate::{is_parsing_failure, CounterError, CounterResult};

verus! {

/// Opcode of the get-period command.
pub const OPCODE: u8 = 0x20;

/// Length of the get-period response.
pub const RESPONSE_LEN: usize = 2;

/// Name given to a malformed get-period response.
pub open spec fn source() -> Seq<char> {
    "Comms Watchdog Period"@
}

/// What a get-period response decodes to.
pub open spec fn spec_parse(data: Seq<u8>) -> Result<u8, ()> {
    if data.len() == RESPONSE_LEN {
        Ok(data[1])
    } else {
        Err(())
    }
}

/// Decodes a get-period response.
pub fn parse(data: &[u8]) -> (r: CounterResult<u8>)
    ensures
        spec_parse(data@) matches Ok(p) ==> r == Ok::<u8, CounterError>(p),
        spec_parse(data@) is Err ==> r is Err && is_parsing_failure(r->Err_0, source()),
{
    if data.len() == RESPONSE_LEN {
        Ok(data[1])
    } else {
        Err(CounterError::parsing_failure("Comms Watchdog Period"))
    }
}

/// The get-period command and the length of its response.
pub fn command() -> (r: (Command, usize))
    ensures
        r.0.frame() == (OPCODE, seq![0x00u8]),
        r.1 == RESPONSE_LEN,
{
    (Command { cmd: OPCODE, data: vec![0x00] }, RESPONSE_LEN)
}

} // verus!
