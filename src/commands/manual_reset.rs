//! Manual reset
//!
//! Resets the board. Resetting the board this way increments its manual
//! reset counter. The board sends no response.
use vstd::prelude::*;

use crate::command::Command;

verus! {

/// Opcode of the manual reset command.
pub const OPCODE: u8 = 0x80;

/// The manual reset command.
pub fn command() -> (r: Command)
    ensures
        r.frame() == (OPCODE, seq![0x00u8]),
{
    Command { cmd: OPCODE, data: vec![0x00] }
}

} // verus!
