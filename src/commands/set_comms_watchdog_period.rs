//! Set communications watchdog period
//!
//! The board reboots into its initial state when no command reaches it for
//! the watchdog period, 4 minutes after each reboot. The data byte of this
//! command sets the period in minutes. The board documents 1 to 90 minutes
//! as valid and reports other values as a data error itself: the value is
//! sent as given. The board sends no response.
use vstd::prelude::*;

use crate::command::Command;

verus! {

/// Opcode of the set-period command.
pub const OPCODE: u8 = 0x21;

/// The command that sets the watchdog period to `period` minutes.
pub fn command(period: u8) -> (r: Command)
    ensures
        r.frame() == (OPCODE, seq![period]),
{
    Command { cmd: OPCODE, data: vec![period] }
}

} // verus!
