//! The device controller: runs each operation of the board through the bus.
//!
//! Every transaction waits the settle delay first: the board drops or
//! corrupts a command that follows the previous one too closely. A power
//! switch also waits, after the switch, for the powered board to boot.
//! Failures come back to the caller at once; nothing is retried. A failed
//! transaction changes no state of the controller.
use vstd::prelude::*;

use crate::aggregator::{spec_record, spec_swap, Aggregator, AggregatorView, WINDOW_LENGTH};
use crate::catalog::{lookup, Entry, Operation};
use crate::command::Command;
use crate::commands::get_comms_watchdog_period;
use crate::commands::last_error::{self, ErrorCode};
use crate::commands::radiation_count::{self, Layout};
use crate::objects::RCHk;
use crate::telemetry::{counter, reset};
use crate::{is_parsing_failure, CounterError, CounterResult};

verus! {

/// Observed settle delay before a command, in milliseconds: the board needs
/// 59.
pub const INTER_COMMAND_DELAY_MS: u64 = 60;

/// Time the board needs to boot after a power switch, in milliseconds.
pub const POWER_SETTLE_MS: u64 = 500;

/// The bus connection to the board, supplied by the caller.
pub trait Bus {
    /// Sends a frame to which the board sends no response.
    fn write(&self, command: Command) -> Result<(), std::io::ErrorKind>;

    /// Sends a frame and reads `rx_len` response bytes, waiting at most
    /// `timeout_ms` milliseconds for them.
    fn transfer(&self, command: Command, rx_len: usize, timeout_ms: u64) -> Result<
        Vec<u8>,
        std::io::ErrorKind,
    >;

    /// Waits `millis` milliseconds.
    fn pause(&self, millis: u64);

    /// Switches the board's power supply on or off.
    fn switch_power(&self, on: bool) -> Result<(), std::io::ErrorKind>;
}

/// Delays that the controller observes.
#[derive(Clone, Copy, Debug, PartialEq, Eq)]
pub struct Timing {
    /// Wait before each transaction, in milliseconds
    pub settle_ms: u64,
    /// Wait after a power switch, in milliseconds
    pub power_settle_ms: u64,
}

impl Timing {
    /// The delays that the board needs.
    pub fn standard() -> (r: Timing)
        ensures
            r.settle_ms == INTER_COMMAND_DELAY_MS,
            r.power_settle_ms == POWER_SETTLE_MS,
    {
        Timing { settle_ms: INTER_COMMAND_DELAY_MS, power_settle_ms: POWER_SETTLE_MS }
    }
}

/// The controller's error for a transport outcome: the bytes as they came,
/// or the transport's error kind.
pub fn from_transport<T>(outcome: Result<T, std::io::ErrorKind>) -> (r: CounterResult<T>)
    ensures
        outcome matches Ok(v) ==> r matches Ok(w) && w == v,
        outcome matches Err(k) ==> r matches Err(CounterError::I2CError(j)) && j == k,
{
    match outcome {
        Ok(v) => Ok(v),
        Err(k) => Err(CounterError::I2CError(k)),
    }
}

/// The operations of the radiation counter.
pub trait CuavaRadiationCounter {
    /// Reads the code of the error that the last failed command left.
    fn get_last_error(&self) -> CounterResult<ErrorCode>;

    /// Resets the board, which increments its manual reset counter.
    fn manual_reset(&self) -> CounterResult<()>;

    /// Resets the communications watchdog and does nothing else.
    fn reset_comms_watchdog(&self) -> CounterResult<()>;

    /// Sets the communications watchdog period, in minutes.
    fn set_comms_watchdog_period(&self, period: u8) -> CounterResult<()>;

    /// Reads the communications watchdog period, in minutes.
    fn get_comms_watchdog_period(&self) -> CounterResult<u8>;

    /// Reads the raw count of each channel and adds it to the current window.
    fn get_radiation_count(&mut self) -> CounterResult<Vec<u32>>;
}

/// Radiation counter controller: owns the bus connection and the state of
/// the count windows.
pub struct RadiationCounter<B> {
    connection: B,
    timing: Timing,
    layout: Layout,
    counts: Aggregator,
    powered: bool,
}

impl<B> RadiationCounter<B> {
    #[verifier::type_invariant]
    spec fn inv(self) -> bool {
        &&& self.layout.wf()
        &&& self.counts@.wf()
        &&& self.counts@.channels() == self.layout.channels
    }

    /// The count windows.
    pub closed spec fn aggregate(&self) -> AggregatorView {
        self.counts@
    }

    /// The response layout of the board revision.
    pub closed spec fn layout(&self) -> Layout {
        self.layout
    }

    /// The delays observed.
    pub closed spec fn timing(&self) -> Timing {
        self.timing
    }

    /// The power state last commanded.
    pub closed spec fn power(&self) -> bool {
        self.powered
    }
}

impl<B: Bus> RadiationCounter<B> {
    /// A controller of the standard revision, three channels of two bytes,
    /// with the standard delays, zero counts, and no power command sent.
    pub fn new(connection: B) -> (r: Self)
        ensures
            r.layout() == (Layout { channels: 3, width: 2 }),
            r.timing() == (Timing {
                settle_ms: INTER_COMMAND_DELAY_MS,
                power_settle_ms: POWER_SETTLE_MS,
            }),
            r.aggregate().wf(),
            r.aggregate().latest == Seq::new(3, |i: int| 0u32),
            r.aggregate().current == Seq::new(3, |i: int| 0u64),
            r.aggregate().previous == Seq::new(3, |i: int| 0u64),
            r.aggregate().window_start == 0,
            !r.power(),
    {
        Self::with_config(connection, Layout::standard(), Timing::standard())
    }

    /// A controller of the revision `layout` with the delays `timing`,
    /// zero counts, and no power command sent.
    pub fn with_config(connection: B, layout: Layout, timing: Timing) -> (r: Self)
        requires
            layout.wf(),
        ensures
            r.layout() == layout,
            r.timing() == timing,
            r.aggregate().wf(),
            r.aggregate().channels() == layout.channels,
            r.aggregate().latest == Seq::new(layout.channels as nat, |i: int| 0u32),
            r.aggregate().current == Seq::new(layout.channels as nat, |i: int| 0u64),
            r.aggregate().previous == Seq::new(layout.channels as nat, |i: int| 0u64),
            r.aggregate().window_start == 0,
            !r.power(),
    {
        RadiationCounter {
            connection,
            timing,
            layout,
            counts: Aggregator::new(layout.channels),
            powered: false,
        }
    }

    /// Sends a frame that has no response, after the settle delay.
    fn execute_write(&self, command: Command) -> (r: CounterResult<()>)
        ensures
            r is Err ==> r->Err_0 is I2CError,
    {
        self.connection.pause(self.timing.settle_ms);
        from_transport(self.connection.write(command))
    }

    /// Runs the transaction of a catalog entry, after the settle delay.
    fn execute(&self, entry: Entry) -> (r: CounterResult<Vec<u8>>)
        ensures
            r is Err ==> r->Err_0 is I2CError,
    {
        self.connection.pause(self.timing.settle_ms);
        from_transport(self.connection.transfer(entry.command, entry.response_len, entry.timeout_ms))
    }

    /// Reads telemetry channel `channel`, in billionths of its unit.
    pub fn get_telemetry(&self, channel: counter::Type) -> (r: CounterResult<i64>)
        ensures
            r matches Ok(v) ==> exists|d: Seq<u8>| counter::spec_parse(channel, d) == Ok::<int, ()>(v as int),
            r matches Err(e) ==> e is I2CError || is_parsing_failure(e, counter::source(channel)),
    {
        match self.execute(lookup(Operation::Telemetry(channel))) {
            Ok(data) => counter::parse(data.as_slice(), channel),
            Err(e) => Err(e),
        }
    }

    /// Reads reset counter `kind`.
    pub fn get_reset_counter(&self, kind: reset::Type) -> (r: CounterResult<u8>)
        ensures
            r matches Ok(n) ==> exists|d: Seq<u8>| reset::spec_parse(d) == Ok::<u8, ()>(n),
            r matches Err(e) ==> e is I2CError || is_parsing_failure(e, reset::source()),
    {
        match self.execute(lookup(Operation::ResetCounter(kind))) {
            Ok(data) => reset::parse(data.as_slice()),
            Err(e) => Err(e),
        }
    }

    /// Sends opcode `opcode` with `payload`, bypassing the catalog; the
    /// board sends no response.
    pub fn raw_command(&self, opcode: u8, payload: Vec<u8>) -> (r: CounterResult<()>)
        ensures
            r is Err ==> r->Err_0 is I2CError,
    {
        self.execute_write(Command { cmd: opcode, data: payload })
    }

    /// Switches the board's power, then waits for it to boot. The power
    /// state changes only when the switch succeeded.
    pub fn set_power(&mut self, on: bool) -> (r: CounterResult<()>)
        ensures
            r is Ok ==> final(self).power() == on,
            r is Err ==> final(self).power() == old(self).power() && r->Err_0 is I2CError,
            final(self).aggregate() == old(self).aggregate(),
            final(self).layout() == old(self).layout(),
            final(self).timing() == old(self).timing(),
    {
        proof {
            use_type_invariant(&*self);
        }
        self.connection.pause(self.timing.settle_ms);
        match from_transport(self.connection.switch_power(on)) {
            Ok(()) => {
                self.connection.pause(self.timing.power_settle_ms);
                self.powered = on;
                Ok(())
            },
            Err(e) => Err(e),
        }
    }

    /// The power state last commanded.
    pub fn get_power(&self) -> (r: bool)
        ensures
            r == self.power(),
    {
        self.powered
    }

    /// The housekeeping snapshot: the latest readings, the window start and
    /// the sums of the current and the previous window. Changes nothing.
    pub fn get_housekeeping(&self) -> (r: CounterResult<RCHk>)
        ensures
            r matches Ok(h) && h.readings@ == self.aggregate().latest && h.timestamp
                == self.aggregate().window_start && h.sum@ == self.aggregate().current
                && h.prev_sum@ == self.aggregate().previous,
    {
        Ok(self.counts.snapshot())
    }

    /// Closes the current count window at time `now`.
    pub fn swap_window(&mut self, now: i64)
        requires
            now >= i64::MIN + WINDOW_LENGTH,
        ensures
            final(self).aggregate() == spec_swap(old(self).aggregate(), now as int),
            final(self).layout() == old(self).layout(),
            final(self).timing() == old(self).timing(),
            final(self).power() == old(self).power(),
    {
        proof {
            use_type_invariant(&*self);
        }
        let mut counts = self.counts.duplicate();
        counts.swap_window(now);
        self.counts = counts;
    }
}

impl<B: Bus> CuavaRadiationCounter for RadiationCounter<B> {
    fn get_last_error(&self) -> (r: CounterResult<ErrorCode>)
        ensures
            r matches Ok(c) ==> exists|d: Seq<u8>| last_error::spec_parse(d) == Ok::<ErrorCode, ()>(c),
            r matches Err(e) ==> e is I2CError || is_parsing_failure(e, last_error::source()),
    {
        match self.execute(lookup(Operation::LastError)) {
            Ok(data) => last_error::parse(data.as_slice()),
            Err(e) => Err(e),
        }
    }

    fn manual_reset(&self) -> (r: CounterResult<()>)
        ensures
            r is Err ==> r->Err_0 is I2CError,
    {
        self.execute_write(lookup(Operation::ManualReset).command)
    }

    fn reset_comms_watchdog(&self) -> (r: CounterResult<()>)
        ensures
            r is Err ==> r->Err_0 is I2CError,
    {
        self.execute_write(lookup(Operation::ResetCommsWatchdog).command)
    }

    fn set_comms_watchdog_period(&self, period: u8) -> (r: CounterResult<()>)
        ensures
            r is Err ==> r->Err_0 is I2CError,
    {
        self.execute_write(lookup(Operation::SetWatchdogPeriod(period)).command)
    }

    fn get_comms_watchdog_period(&self) -> (r: CounterResult<u8>)
        ensures
            r matches Ok(p) ==> exists|d: Seq<u8>| get_comms_watchdog_period::spec_parse(d) == Ok::<u8, ()>(p),
            r matches Err(e) ==> e is I2CError || is_parsing_failure(
                e,
                get_comms_watchdog_period::source(),
            ),
    {
        match self.execute(lookup(Operation::GetWatchdogPeriod)) {
            Ok(data) => get_comms_watchdog_period::parse(data.as_slice()),
            Err(e) => Err(e),
        }
    }

    fn get_radiation_count(&mut self) -> (r: CounterResult<Vec<u32>>)
        ensures
            r matches Ok(reading) ==> {
                &&& exists|d: Seq<u8>|
                    radiation_count::spec_parse(d, old(self).layout()) == Ok::<Seq<u32>, ()>(
                        reading@,
                    )
                &&& final(self).aggregate() == spec_record(old(self).aggregate(), reading@)
            },
            r matches Err(e) ==> {
                &&& e is I2CError || is_parsing_failure(e, radiation_count::source())
                &&& final(self).aggregate() == old(self).aggregate()
            },
            final(self).layout() == old(self).layout(),
            final(self).timing() == old(self).timing(),
            final(self).power() == old(self).power(),
    {
        proof {
            use_type_invariant(&*self);
        }
        let layout = self.layout;
        match self.execute(lookup(Operation::RadiationCount(layout))) {
            Ok(data) => match radiation_count::parse(data.as_slice(), layout) {
                Ok(reading) => {
                    let mut counts = self.counts.duplicate();
                    counts.record(reading.as_slice());
                    self.counts = counts;
                    assert(exists|d: Seq<u8>|
                        radiation_count::spec_parse(d, old(self).layout()) == Ok::<Seq<u32>, ()>(
                            reading@,
                        ));
                    Ok(reading)
                },
                Err(e) => Err(e),
            },
            Err(e) => Err(e),
        }
    }
}

} // verus!
