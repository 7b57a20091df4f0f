use radiation_counter_api::telemetry::counter::{self, Type};
use radiation_counter_api::telemetry::reset::parse;
use radiation_counter_api::{Command, CounterError, ResetTelemetry};

#[test]
fn reset_test_parse() {
    let input = vec![0x0, 0x1];
    assert_eq!(parse(&input), Ok(1));
}

#[test]
fn test_parse_bad_data() {
    let input = vec![0x0, 0x1, 0x2];
    assert_eq!(
        parse(&input),
        Err(CounterError::parsing_failure("Reset Telemetry"))
    );
}

#[test]
fn reset_counter_rolls_over_at_a_byte() {
    assert_eq!(parse(&[0x00, 0xFF]), Ok(255));
    assert_eq!(parse(&[0x00, 0x00]), Ok(0));
}

#[test]
fn reset_counter_commands() {
    let kinds = [
        (ResetTelemetry::Type::BrownOut, 0x31u8),
        (ResetTelemetry::Type::AutomaticSoftware, 0x32),
        (ResetTelemetry::Type::Manual, 0x33),
        (ResetTelemetry::Type::Watchdog, 0x34),
    ];
    for (kind, opcode) in kinds.iter() {
        assert_eq!(
            ResetTelemetry::command(*kind),
            (
                Command {
                    cmd: *opcode,
                    data: vec![0x00]
                },
                2
            )
        );
    }
}

#[test]
fn telemetry_commands() {
    assert_eq!(
        counter::command(Type::Voltage),
        (
            Command {
                cmd: 0x10,
                data: vec![0xE1, 0x10]
            },
            3
        )
    );
    assert_eq!(counter::command(Type::Current).0.data, vec![0xE1, 0x14]);
    assert_eq!(counter::command(Type::Power).0.data, vec![0xE1, 0x34]);
}

#[test]
fn voltage_raw_zero_and_thousand() {
    // -0.051236678 V and 32.202463322 V
    assert_eq!(counter::parse(&[0x00, 0x00, 0x00], Type::Voltage), Ok(-51_236_678));
    assert_eq!(
        counter::parse(&[0x00, 0x03, 0xE8], Type::Voltage),
        Ok(32_202_463_322)
    );
}

#[test]
fn current_and_power_transforms() {
    assert_eq!(
        counter::parse(&[0x7F, 0x00, 0x01], Type::Current),
        Ok(978_131_613 + 16_108_602_910)
    );
    assert_eq!(
        counter::parse(&[0x00, 0xFF, 0xFF], Type::Power),
        Ok(979_728_933 * 65_535 + 3_627_460_224)
    );
}

#[test]
fn telemetry_sample_is_big_endian() {
    assert_eq!(counter::adc_sample(&[0x00, 0x01, 0x23]), Some(0x0123));
    assert_eq!(counter::adc_sample(&[0x00, 0x01]), None);
    assert_eq!(counter::convert(Type::Voltage, 0x0123), 32_253_700 * 0x0123 - 51_236_678);
}

#[test]
fn telemetry_every_sample_of_every_channel() {
    let coefficients = [
        (Type::Voltage, 32_253_700i64, -51_236_678i64),
        (Type::Current, 978_131_613, 16_108_602_910),
        (Type::Power, 979_728_933, 3_627_460_224),
    ];
    for (t, scale, offset) in coefficients.iter() {
        for raw in 0u32..=65_535 {
            let hi = (raw >> 8) as u8;
            let lo = (raw & 0xFF) as u8;
            assert_eq!(
                counter::parse(&[0x00, hi, lo], *t),
                Ok(scale * raw as i64 + offset)
            );
        }
    }
}

#[test]
fn telemetry_bad_length_names_channel() {
    assert_eq!(
        counter::parse(&[0x00, 0x01], Type::Voltage),
        Err(CounterError::parsing_failure("Voltage Telemetry"))
    );
    assert_eq!(
        counter::parse(&[], Type::Current),
        Err(CounterError::parsing_failure("Current Telemetry"))
    );
    assert_eq!(
        counter::parse(&[0, 0, 0, 0], Type::Power),
        Err(CounterError::parsing_failure("Power Telemetry"))
    );
}
