//! Last error
//!
//! After a command has failed, the board keeps the code of that failure.
//! The command 0x03 with the data byte 0x00 retrieves it: the response is a
//! status byte followed by the code.
use vstd::prelude::*;

use crate::command::Command;
use crate::{is_parsing_failure, CounterError, CounterResult};

verus! {

/// Possible last error values
#[derive(Clone, Copy, Debug, Eq, PartialEq)]
pub enum ErrorCode {
    /// No error was encountered
    NoError,
    /// Unknown command received
    UnknownCommand,
    /// A reset had to occur
    ResetOccurred,
    /// The command to fetch the last error failed
    CommandError,
    /// Catch all for any other error value
    UnknownError,
}

/// The code that a last-error byte stands for.
pub open spec fn code_of(value: u8) -> ErrorCode {
    if value == 0x00 {
        ErrorCode::NoError
    } else if value == 0x01 {
        ErrorCode::UnknownCommand
    } else if value == 0x02 {
        ErrorCode::ResetOccurred
    } else if value == 0x03 {
        ErrorCode::CommandError
    } else {
        ErrorCode::UnknownError
    }
}

/// Opcode of the last-error command.
pub const OPCODE: u8 = 0x03;

/// Length of the last-error response.
pub const RESPONSE_LEN: usize = 2;

/// Name given to a malformed last-error response.
pub open spec fn source() -> Seq<char> {
    "Last Error"@
}

/// What a last-error response decodes to.
pub open spec fn spec_parse(data: Seq<u8>) -> Result<ErrorCode, ()> {
    if data.len() == RESPONSE_LEN {
        Ok(code_of(data[1]))
    } else {
        Err(())
    }
}

impl ErrorCode {
    /// The code that a last-error byte stands for.
    pub fn from_u8(value: u8) -> (r: ErrorCode)
        ensures
            r == code_of(value),
    {
        match value {
            0x00 => ErrorCode::NoError,
            0x01 => ErrorCode::UnknownCommand,
            0x02 => ErrorCode::ResetOccurred,
            0x03 => ErrorCode::CommandError,
            _ => ErrorCode::UnknownError,
        }
    }
}

/// Decodes a last-error response: a status byte, then the code.
pub fn parse(data: &[u8]) -> (r: CounterResult<ErrorCode>)
    ensures
        spec_parse(data@) matches Ok(c) ==> r == Ok::<ErrorCode, CounterError>(c),
        spec_parse(data@) is Err ==> r is Err && is_parsing_failure(r->Err_0, source()),
{
    if data.len() == RESPONSE_LEN {
        Ok(ErrorCode::from_u8(data[1]))
    } else {
        Err(CounterError::parsing_failure("Last Error"))
    }
}

/// A last-error response decodes each known code byte, 0 to 3, to its named
/// code, and every other byte to [`ErrorCode::UnknownError`].
pub proof fn lemma_known_codes(status: u8, code: u8)
    ensures
        code == 0x00 ==> spec_parse(seq![status, code]) == Ok::<ErrorCode, ()>(ErrorCode::NoError),
        code == 0x01 ==> spec_parse(seq![status, code]) == Ok::<ErrorCode, ()>(
            ErrorCode::UnknownCommand,
        ),
        code == 0x02 ==> spec_parse(seq![status, code]) == Ok::<ErrorCode, ()>(
            ErrorCode::ResetOccurred,
        ),
        code == 0x03 ==> spec_parse(seq![status, code]) == Ok::<ErrorCode, ()>(
            ErrorCode::CommandError,
        ),
        code > 0x03 ==> spec_parse(seq![status, code]) == Ok::<ErrorCode, ()>(
            ErrorCode::UnknownError,
        ),
{
    assert(seq![status, code][1] == code);
}

/// The last-error command and the length of its response.
pub fn command() -> (r: (Command, usize))
    ensures
        r.0.frame() == (OPCODE, seq![0x00u8]),
        r.1 == RESPONSE_LEN,
{
    (Command { cmd: OPCODE, data: vec![0x00] }, RESPONSE_LEN)
}

} // verus!
