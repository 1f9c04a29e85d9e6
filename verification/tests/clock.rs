use clockwork_scheduler::{ClockData, DeserializationError};

fn encode(clock: &ClockData) -> Vec<u8> {
    let mut bytes = Vec::new();
    bytes.extend_from_slice(&clock.slot.to_le_bytes());
    bytes.extend_from_slice(&clock.epoch_start_timestamp.to_le_bytes());
    bytes.extend_from_slice(&clock.epoch.to_le_bytes());
    bytes.extend_from_slice(&clock.leader_schedule_epoch.to_le_bytes());
    bytes.extend_from_slice(&clock.unix_timestamp.to_le_bytes());
    bytes
}

#[test]
fn decodes_the_forty_byte_layout() {
    let clock = ClockData {
        slot: 123_456_789,
        epoch_start_timestamp: 1_649_000_000,
        epoch: 22,
        leader_schedule_epoch: 23,
        unix_timestamp: 1_650_000_000,
    };
    assert_eq!(ClockData::try_from_bytes(&encode(&clock)), Ok(clock));
}

#[test]
fn decodes_negative_timestamps() {
    let clock = ClockData {
        slot: 1,
        epoch_start_timestamp: -5,
        epoch: 0,
        leader_schedule_epoch: 0,
        unix_timestamp: i64::MIN,
    };
    assert_eq!(ClockData::try_from_bytes(&encode(&clock)), Ok(clock));
}

#[test]
fn decodes_extreme_field_values() {
    let clock = ClockData {
        slot: u64::MAX,
        epoch_start_timestamp: i64::MAX,
        epoch: u64::MAX,
        leader_schedule_epoch: 0,
        unix_timestamp: -1,
    };
    assert_eq!(ClockData::try_from_bytes(&encode(&clock)), Ok(clock));
}

#[test]
fn rejects_data_of_the_wrong_length() {
    assert_eq!(ClockData::try_from_bytes(&vec![]), Err(DeserializationError));
    assert_eq!(ClockData::try_from_bytes(&vec![0u8; 39]), Err(DeserializationError));
    assert_eq!(ClockData::try_from_bytes(&vec![0u8; 41]), Err(DeserializationError));
}
