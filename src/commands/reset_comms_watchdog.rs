//! Reset communications watchdog
//!
//! Any valid command resets the communications watchdog timer; this one
//! does nothing else. The board sends no response.
use vstd::prelude::*;

use crate::command::Command;

verus! {

/// Opcode of the watchdog reset command.
pub const OPCODE: u8 = 0x22;

/// The watchdog reset command.
pub fn command() -> (r: Command)
    ensures
        r.frame() == (OPCODE, seq![0x00u8]),
{
    Command { cmd: OPCODE, data: vec![0x00] }
}

} // verus!
