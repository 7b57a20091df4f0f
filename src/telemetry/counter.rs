//! Analog telemetry channels
//!
//! All channels share one opcode; a two-byte subaddress selects the channel.
//! The response is a status byte followed by a big-endian 16-bit ADC sample.
//! A channel turns the sample into its engineering unit by a fixed linear
//! transform. The coefficients are exact in billionths of the unit, so the
//! decoded value is given as an integer count of billionths.
use vstd::prelude::*;

use crate::command::Command;
use crate::{is_parsing_failure, CounterError, CounterResult};

verus! {

/// Telemetry channels
#[derive(Clone, Copy, Debug, Eq, Hash, PartialEq)]
pub enum Type {
    /// Voltage (V)
    Voltage,
    /// Current (A)
    Current,
    /// Power (W)
    Power,
}

/// Opcode shared by the telemetry channels.
pub const TELEM_CMD: u8 = 0x10;

/// Length of a telemetry response: status, high byte, low byte.
pub const RESPONSE_LEN: usize = 3;

/// Subaddress selecting a channel.
pub open spec fn subaddress(t: Type) -> Seq<u8> {
    match t {
        Type::Voltage => seq![0xE1u8, 0x10u8],
        Type::Current => seq![0xE1u8, 0x14u8],
        Type::Power => seq![0xE1u8, 0x34u8],
    }
}

/// Scale of a channel, in billionths of its unit per ADC step.
pub open spec fn scale(t: Type) -> int {
    match t {
        Type::Voltage => 32_253_700,
        Type::Current => 978_131_613,
        Type::Power => 979_728_933,
    }
}

/// Offset of a channel, in billionths of its unit.
pub open spec fn offset(t: Type) -> int {
    match t {
        Type::Voltage => -51_236_678,
        Type::Current => 16_108_602_910,
        Type::Power => 3_627_460_224,
    }
}

/// Name given to a malformed response of a channel.
pub open spec fn source(t: Type) -> Seq<char> {
    match t {
        Type::Voltage => "Voltage Telemetry"@,
        Type::Current => "Current Telemetry"@,
        Type::Power => "Power Telemetry"@,
    }
}

/// The sample that two bytes give, high byte first.
pub open spec fn be_u16(hi: u8, lo: u8) -> int {
    hi * 256 + lo
}

/// The value of a channel for an ADC sample, in billionths of its unit.
pub open spec fn value(t: Type, sample: int) -> int {
    scale(t) * sample + offset(t)
}

/// What a telemetry response of channel `t` decodes to.
pub open spec fn spec_parse(t: Type, data: Seq<u8>) -> Result<int, ()> {
    if data.len() == RESPONSE_LEN {
        Ok(value(t, be_u16(data[1], data[2])))
    } else {
        Err(())
    }
}

/// Reads the big-endian sample that follows the status byte.
pub fn adc_sample(data: &[u8]) -> (r: Option<u16>)
    ensures
        data@.len() == RESPONSE_LEN ==> r == Some(be_u16(data@[1], data@[2]) as u16),
        data@.len() != RESPONSE_LEN ==> r is None,
{
    if data.len() == RESPONSE_LEN {
        Some((data[1] as u16) * 256 + data[2] as u16)
    } else {
        None
    }
}

/// Applies the linear transform of channel `t` to an ADC sample.
pub fn convert(t: Type, sample: u16) -> (r: i64)
    ensures
        r == value(t, sample as int),
{
    let s = sample as i64;
    match t {
        Type::Voltage => 32_253_700 * s - 51_236_678,
        Type::Current => 978_131_613 * s + 16_108_602_910,
        Type::Power => 979_728_933 * s + 3_627_460_224,
    }
}

/// Decodes a telemetry response of channel `telem_type`, in billionths of
/// the channel's unit.
pub fn parse(data: &[u8], telem_type: Type) -> (r: CounterResult<i64>)
    ensures
        spec_parse(telem_type, data@) matches Ok(v) ==> r matches Ok(x) && x == v,
        spec_parse(telem_type, data@) is Err ==> r is Err && is_parsing_failure(
            r->Err_0,
            source(telem_type),
        ),
{
    match adc_sample(data) {
        Some(sample) => Ok(convert(telem_type, sample)),
        None => Err(
            match telem_type {
                Type::Voltage => CounterError::parsing_failure("Voltage Telemetry"),
                Type::Current => CounterError::parsing_failure("Current Telemetry"),
                Type::Power => CounterError::parsing_failure("Power Telemetry"),
            },
        ),
    }
}

/// For every channel and every sample, a response of a status byte and the
/// sample's two bytes, high byte first, decodes to the channel's scale times
/// the sample plus its offset.
pub proof fn lemma_linear_decode(t: Type, status: u8, hi: u8, lo: u8)
    ensures
        spec_parse(t, seq![status, hi, lo]) == Ok::<int, ()>(scale(t) * (hi * 256 + lo) + offset(
            t,
        )),
{
    let d = seq![status, hi, lo];
    assert(d[1] == hi && d[2] == lo);
}

/// The command reading channel `telem_type` and the length of its response.
pub fn command(telem_type: Type) -> (r: (Command, usize))
    ensures
        r.0.frame() == (TELEM_CMD, subaddress(telem_type)),
        r.1 == RESPONSE_LEN,
{
    let data = match telem_type {
        Type::Voltage => vec![0xE1, 0x10],
        Type::Current => vec![0xE1, 0x14],
        Type::Power => vec![0xE1, 0x34],
    };
    (Command { cmd: TELEM_CMD, data }, RESPONSE_LEN)
}

} // verus!
