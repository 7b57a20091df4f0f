//! The command catalog: for each operation of the board, the frame to send,
//! the length of the response and how long to wait for it.
//!
//! A response is decoded only when its length is the one declared here for
//! its command; any other length is a parsing failure naming the command.
use vstd::prelude::*;

use crate::command::Command;
use crate::commands::radiation_count::Layout;
use crate::commands::{
    get_comms_watchdog_period, last_error, manual_reset, radiation_count, reset_comms_watchdog,
    set_comms_watchdog_period,
};
use crate::telemetry::{counter, reset};

verus! {

/// Response timeout of the last-error command, in milliseconds.
pub const LAST_ERROR_TIMEOUT_MS: u64 = 3;

/// Response timeout of the get-period command, in milliseconds.
pub const WATCHDOG_PERIOD_TIMEOUT_MS: u64 = 2;

/// Response timeout of a telemetry channel, in milliseconds; the ADC needs
/// time to settle.
pub const TELEMETRY_TIMEOUT_MS: u64 = 20;

/// Response timeout of a reset counter, in milliseconds.
pub const RESET_COUNTER_TIMEOUT_MS: u64 = 3;

/// Response timeout of the radiation count, in milliseconds.
pub const RADIATION_COUNT_TIMEOUT_MS: u64 = 3;

/// The operations of the board.
#[derive(Clone, Copy, Debug, PartialEq, Eq)]
pub enum Operation {
    /// Read the code of the last error
    LastError,
    /// Reset the board
    ManualReset,
    /// Reset the communications watchdog
    ResetCommsWatchdog,
    /// Set the watchdog period, in minutes
    SetWatchdogPeriod(u8),
    /// Read the watchdog period
    GetWatchdogPeriod,
    /// Read a telemetry channel
    Telemetry(counter::Type),
    /// Read a reset counter
    ResetCounter(reset::Type),
    /// Read the radiation counts of a board revision
    RadiationCount(Layout),
}

/// A catalog entry.
#[derive(Debug, Clone, PartialEq, Eq)]
pub struct Entry {
    /// Frame to send
    pub command: Command,
    /// Length of the response; zero where the board sends none
    pub response_len: usize,
    /// Response timeout in milliseconds; zero where the board sends no
    /// response
    pub timeout_ms: u64,
}

/// An operation can be looked up: a radiation count layout must be valid.
pub open spec fn valid(op: Operation) -> bool {
    op matches Operation::RadiationCount(l) ==> l.wf()
}

/// Opcode of an operation.
pub open spec fn opcode(op: Operation) -> u8 {
    match op {
        Operation::LastError => last_error::OPCODE,
        Operation::ManualReset => manual_reset::OPCODE,
        Operation::ResetCommsWatchdog => reset_comms_watchdog::OPCODE,
        Operation::SetWatchdogPeriod(_) => set_comms_watchdog_period::OPCODE,
        Operation::GetWatchdogPeriod => get_comms_watchdog_period::OPCODE,
        Operation::Telemetry(_) => counter::TELEM_CMD,
        Operation::ResetCounter(t) => reset::opcode(t),
        Operation::RadiationCount(_) => radiation_count::OPCODE,
    }
}

/// Payload of an operation.
pub open spec fn payload(op: Operation) -> Seq<u8> {
    match op {
        Operation::SetWatchdogPeriod(p) => seq![p],
        Operation::Telemetry(t) => counter::subaddress(t),
        Operation::RadiationCount(_) => Seq::empty(),
        _ => seq![0x00u8],
    }
}

/// Declared response length of an operation; zero where the board sends
/// none.
pub open spec fn response_len(op: Operation) -> nat {
    match op {
        Operation::LastError => last_error::RESPONSE_LEN as nat,
        Operation::GetWatchdogPeriod => get_comms_watchdog_period::RESPONSE_LEN as nat,
        Operation::Telemetry(_) => counter::RESPONSE_LEN as nat,
        Operation::ResetCounter(_) => reset::RESPONSE_LEN as nat,
        Operation::RadiationCount(l) => l.response_len(),
        _ => 0,
    }
}

/// Response timeout of an operation.
pub open spec fn timeout(op: Operation) -> u64 {
    match op {
        Operation::LastError => LAST_ERROR_TIMEOUT_MS,
        Operation::GetWatchdogPeriod => WATCHDOG_PERIOD_TIMEOUT_MS,
        Operation::Telemetry(_) => TELEMETRY_TIMEOUT_MS,
        Operation::ResetCounter(_) => RESET_COUNTER_TIMEOUT_MS,
        Operation::RadiationCount(_) => RADIATION_COUNT_TIMEOUT_MS,
        _ => 0,
    }
}

/// Name that a parsing failure of an operation's response carries.
pub open spec fn source(op: Operation) -> Seq<char> {
    match op {
        Operation::LastError => last_error::source(),
        Operation::GetWatchdogPeriod => get_comms_watchdog_period::source(),
        Operation::Telemetry(t) => counter::source(t),
        Operation::ResetCounter(_) => reset::source(),
        Operation::RadiationCount(_) => radiation_count::source(),
        _ => Seq::empty(),
    }
}

/// The decoder of the operation's response accepts `data`.
pub open spec fn decodes(op: Operation, data: Seq<u8>) -> bool {
    match op {
        Operation::LastError => last_error::spec_parse(data) is Ok,
        Operation::GetWatchdogPeriod => get_comms_watchdog_period::spec_parse(data) is Ok,
        Operation::Telemetry(t) => counter::spec_parse(t, data) is Ok,
        Operation::ResetCounter(_) => reset::spec_parse(data) is Ok,
        Operation::RadiationCount(l) => radiation_count::spec_parse(data, l) is Ok,
        _ => false,
    }
}

/// The catalog entry of `op`.
pub fn lookup(op: Operation) -> (r: Entry)
    requires
        valid(op),
    ensures
        r.command.frame() == (opcode(op), payload(op)),
        r.response_len == response_len(op),
        r.timeout_ms == timeout(op),
{
    match op {
        Operation::LastError => {
            let (command, response_len) = last_error::command();
            Entry { command, response_len, timeout_ms: LAST_ERROR_TIMEOUT_MS }
        },
        Operation::ManualReset => Entry {
            command: manual_reset::command(),
            response_len: 0,
            timeout_ms: 0,
        },
        Operation::ResetCommsWatchdog => Entry {
            command: reset_comms_watchdog::command(),
            response_len: 0,
            timeout_ms: 0,
        },
        Operation::SetWatchdogPeriod(p) => Entry {
            command: set_comms_watchdog_period::command(p),
            response_len: 0,
            timeout_ms: 0,
        },
        Operation::GetWatchdogPeriod => {
            let (command, response_len) = get_comms_watchdog_period::command();
            Entry { command, response_len, timeout_ms: WATCHDOG_PERIOD_TIMEOUT_MS }
        },
        Operation::Telemetry(t) => {
            let (command, response_len) = counter::command(t);
            Entry { command, response_len, timeout_ms: TELEMETRY_TIMEOUT_MS }
        },
        Operation::ResetCounter(t) => {
            let (command, response_len) = reset::command(t);
            Entry { command, response_len, timeout_ms: RESET_COUNTER_TIMEOUT_MS }
        },
        Operation::RadiationCount(l) => {
            let (command, response_len) = radiation_count::command(l);
            Entry { command, response_len, timeout_ms: RADIATION_COUNT_TIMEOUT_MS }
        },
    }
}

/// The decoders agree with the catalog: the response of an operation that
/// has one is decoded exactly when its length is the declared one, so a
/// response of any other length is never decoded, even in part.
pub proof fn lemma_decoders_agree_with_catalog(op: Operation, data: Seq<u8>)
    requires
        response_len(op) > 0,
    ensures
        decodes(op, data) <==> data.len() == response_len(op),
{
}

/// Setting the watchdog period to `period` sends it as the one payload byte;
/// a board that answers a get-period command with a status byte and that
/// byte gives back `period`.
pub proof fn lemma_watchdog_period_round_trip(period: u8, status: u8)
    ensures
        opcode(Operation::SetWatchdogPeriod(period)) == set_comms_watchdog_period::OPCODE,
        payload(Operation::SetWatchdogPeriod(period)).len() == 1,
        get_comms_watchdog_period::spec_parse(
            seq![status, payload(Operation::SetWatchdogPeriod(period))[0]],
        ) == Ok::<u8, ()>(period),
{
    let d = seq![status, payload(Operation::SetWatchdogPeriod(period))[0]];
    assert(d[1] == period);
}

} // verus!
