//! The frame sent to the board: an opcode and its payload.
use vstd::prelude::*;

verus! {

/// A command frame: one opcode byte followed by the payload bytes.
#[derive(Debug, Clone, PartialEq, Eq)]
pub struct Command {
    /// Opcode of the operation
    pub cmd: u8,
    /// Payload bytes following the opcode
    pub data: Vec<u8>,
}

impl Command {
    /// The opcode and payload as plain values.
    pub open spec fn frame(&self) -> (u8, Seq<u8>) {
        (self.cmd, self.data@)
    }
}

} // verus!
