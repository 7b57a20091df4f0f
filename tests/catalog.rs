use radiation_counter_api::catalog::{lookup, Entry, Operation};
use radiation_counter_api::commands::radiation_count::{self, Layout};
use radiation_counter_api::commands::{get_comms_watchdog_period, last_error};
use radiation_counter_api::telemetry::{counter, reset};
use radiation_counter_api::{Command, CounterError};

fn entry(cmd: u8, data: Vec<u8>, response_len: usize, timeout_ms: u64) -> Entry {
    Entry {
        command: Command { cmd, data },
        response_len,
        timeout_ms,
    }
}

#[test]
fn catalog_table() {
    assert_eq!(lookup(Operation::LastError), entry(0x03, vec![0x00], 2, 3));
    assert_eq!(lookup(Operation::ManualReset), entry(0x80, vec![0x00], 0, 0));
    assert_eq!(
        lookup(Operation::ResetCommsWatchdog),
        entry(0x22, vec![0x00], 0, 0)
    );
    assert_eq!(
        lookup(Operation::SetWatchdogPeriod(7)),
        entry(0x21, vec![7], 0, 0)
    );
    assert_eq!(
        lookup(Operation::GetWatchdogPeriod),
        entry(0x20, vec![0x00], 2, 2)
    );
    assert_eq!(
        lookup(Operation::Telemetry(counter::Type::Current)),
        entry(0x10, vec![0xE1, 0x14], 3, 20)
    );
    assert_eq!(
        lookup(Operation::ResetCounter(reset::Type::Manual)),
        entry(0x33, vec![0x00], 2, 3)
    );
    assert_eq!(
        lookup(Operation::RadiationCount(Layout {
            channels: 5,
            width: 4
        })),
        entry(0x01, vec![], 20, 3)
    );
}

fn failure_source(op: Operation, data: &[u8]) -> Option<String> {
    let outcome = match op {
        Operation::LastError => last_error::parse(data).err(),
        Operation::GetWatchdogPeriod => get_comms_watchdog_period::parse(data).err(),
        Operation::Telemetry(t) => counter::parse(data, t).err(),
        Operation::ResetCounter(_) => reset::parse(data).err(),
        Operation::RadiationCount(l) => radiation_count::parse(data, l).err(),
        _ => None,
    };
    match outcome {
        Some(CounterError::ParsingFailure { source }) => Some(source),
        _ => None,
    }
}

#[test]
fn only_declared_length_decodes() {
    let ops = [
        (Operation::LastError, "Last Error"),
        (Operation::GetWatchdogPeriod, "Comms Watchdog Period"),
        (Operation::Telemetry(counter::Type::Voltage), "Voltage Telemetry"),
        (Operation::ResetCounter(reset::Type::BrownOut), "Reset Telemetry"),
        (Operation::RadiationCount(Layout::standard()), "Radiation Count"),
    ];
    for (op, source) in ops.iter() {
        let declared = lookup(*op).response_len;
        for len in 0..=24usize {
            let data = vec![0x01u8; len];
            let failure = failure_source(*op, &data);
            if len == declared {
                assert_eq!(failure, None);
            } else {
                assert_eq!(failure, Some(String::from(*source)));
            }
        }
    }
}
