use radiation_counter_api::aggregator::{Aggregator, WINDOW_LENGTH};
use radiation_counter_api::commands::radiation_count::{self, Layout};
use radiation_counter_api::{Command, CounterError};

#[test]
fn counts_three_channels_of_two_bytes() {
    let layout = Layout::standard();
    assert_eq!(
        radiation_count::parse(&[0x01, 0x02, 0x00, 0x05, 0xFF, 0xFF], layout),
        Ok(vec![0x0102, 5, 0xFFFF])
    );
}

#[test]
fn counts_five_channels_of_four_bytes() {
    let layout = Layout {
        channels: 5,
        width: 4,
    };
    let data = [
        0x00, 0x00, 0x00, 0x01, 0x12, 0x34, 0x56, 0x78, 0xFF, 0xFF, 0xFF, 0xFF, 0x00, 0x01, 0x00,
        0x00, 0x80, 0x00, 0x00, 0x00,
    ];
    assert_eq!(
        radiation_count::parse(&data, layout),
        Ok(vec![1, 0x1234_5678, 0xFFFF_FFFF, 0x0001_0000, 0x8000_0000])
    );
}

#[test]
fn counts_three_channels_of_one_byte() {
    let layout = Layout {
        channels: 3,
        width: 1,
    };
    assert_eq!(
        radiation_count::parse(&[7, 0, 255], layout),
        Ok(vec![7, 0, 255])
    );
}

#[test]
fn counts_wrong_length_is_parsing_failure() {
    let layout = Layout::standard();
    assert_eq!(
        radiation_count::parse(&[0x01, 0x02, 0x00, 0x05, 0xFF], layout),
        Err(CounterError::parsing_failure("Radiation Count"))
    );
    assert_eq!(
        radiation_count::parse(&[], layout),
        Err(CounterError::parsing_failure("Radiation Count"))
    );
}

#[test]
fn counts_command_frame() {
    assert_eq!(
        radiation_count::command(Layout::standard()),
        (
            Command {
                cmd: 0x01,
                data: vec![]
            },
            6
        )
    );
}

#[test]
fn aggregator_sums_then_swaps() {
    let mut a = Aggregator::new(3);
    let readings = [[1u32, 2, 3], [10, 20, 30], [100, 200, 300]];
    for r in readings.iter() {
        a.record(r);
    }
    let before = a.snapshot();
    assert_eq!(before.sum, vec![111, 222, 333]);
    assert_eq!(before.readings, vec![100, 200, 300]);
    a.swap_window(1_000);
    let after = a.snapshot();
    assert_eq!(after.prev_sum, vec![111, 222, 333]);
    assert_eq!(after.sum, vec![0, 0, 0]);
    assert_eq!(after.timestamp, 1_000 - 30);
    assert_eq!(WINDOW_LENGTH, 30);
}

#[test]
fn aggregator_new_is_zero() {
    let a = Aggregator::new(5);
    assert_eq!(a.channels(), 5);
    let h = a.snapshot();
    assert_eq!(h.readings, vec![0; 5]);
    assert_eq!(h.sum, vec![0; 5]);
    assert_eq!(h.prev_sum, vec![0; 5]);
    assert_eq!(h.timestamp, 0);
}

#[test]
fn aggregator_second_swap_moves_only_new_window() {
    let mut a = Aggregator::new(2);
    a.record(&[4, 5]);
    a.swap_window(30);
    a.record(&[1, 1]);
    a.record(&[2, 2]);
    a.swap_window(60);
    let h = a.snapshot();
    assert_eq!(h.prev_sum, vec![3, 3]);
    assert_eq!(h.sum, vec![0, 0]);
    assert_eq!(h.timestamp, 30);
    assert_eq!(h.readings, vec![2, 2]);
}

#[test]
fn aggregator_sums_pass_u32_range() {
    let mut a = Aggregator::new(1);
    for _ in 0..4 {
        a.record(&[u32::MAX]);
    }
    assert_eq!(a.snapshot().sum, vec![4 * u32::MAX as u64]);
}

#[test]
fn snapshot_does_not_change_state() {
    let mut a = Aggregator::new(2);
    a.record(&[3, 4]);
    let first = a.snapshot();
    let second = a.snapshot();
    assert_eq!(first, second);
}
