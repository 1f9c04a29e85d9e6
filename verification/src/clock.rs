//! The clock object: a specific moment in ledger time, decoded from the
//! fixed-width little-endian account layout in which it is observed.

use vstd::prelude::*;

verus! {

/// Observed account data did not match the expected layout. On a critical
/// account this is fatal: it means this code is out of sync with the
/// authoritative schema.
#[derive(Clone, Copy, PartialEq, Eq, Structural, Debug)]
pub struct DeserializationError;

/// A specific moment in time recorded by the ledger cluster.
#[derive(Clone, Copy, PartialEq, Eq, Structural, Debug)]
pub struct ClockData {
    /// The current slot.
    pub slot: u64,
    /// The timestamp of the first slot in the current epoch.
    pub epoch_start_timestamp: i64,
    /// The bank epoch.
    pub epoch: u64,
    /// The most recent epoch for which the leader schedule was calculated.
    pub leader_schedule_epoch: u64,
    /// The cluster's wall-clock timestamp.
    pub unix_timestamp: i64,
}

/// The unsigned 64-bit value held little-endian at `off` in `bytes`.
pub open spec fn le_u64_at(bytes: Seq<u8>, off: int) -> u64
    recommends
        0 <= off,
        off + 8 <= bytes.len(),
{
    (bytes[off] as u64) | (bytes[off + 1] as u64) << 8 | (bytes[off + 2] as u64) << 16 | (bytes[off
        + 3] as u64) << 24 | (bytes[off + 4] as u64) << 32 | (bytes[off + 5] as u64) << 40 | (
    bytes[off + 6] as u64) << 48 | (bytes[off + 7] as u64) << 56
}

/// The signed 64-bit value held little-endian at `off` in `bytes`: the
/// unsigned value reinterpreted in two's complement.
pub open spec fn le_i64_at(bytes: Seq<u8>, off: int) -> i64
    recommends
        0 <= off,
        off + 8 <= bytes.len(),
{
    le_u64_at(bytes, off) as i64
}

/// The clock a 40-byte little-endian account layout holds: five 64-bit
/// fields in declaration order.
pub open spec fn clock_data_of(bytes: Seq<u8>) -> ClockData
    recommends
        bytes.len() == 40,
{
    ClockData {
        slot: le_u64_at(bytes, 0),
        epoch_start_timestamp: le_i64_at(bytes, 8),
        epoch: le_u64_at(bytes, 16),
        leader_schedule_epoch: le_u64_at(bytes, 24),
        unix_timestamp: le_i64_at(bytes, 32),
    }
}

/// Reads the unsigned 64-bit value held little-endian at `off`.
fn read_le_u64(bytes: &Vec<u8>, off: usize) -> (r: u64)
    requires
        off + 8 <= bytes.len(),
    ensures
        r == le_u64_at(bytes@, off as int),
{
    (bytes[off] as u64) | (bytes[off + 1] as u64) << 8 | (bytes[off + 2] as u64) << 16 | (bytes[off
        + 3] as u64) << 24 | (bytes[off + 4] as u64) << 32 | (bytes[off + 5] as u64) << 40 | (
    bytes[off + 6] as u64) << 48 | (bytes[off + 7] as u64) << 56
}

impl ClockData {
    /// Decodes observed clock account data: exactly five little-endian
    /// 64-bit fields; any other length fails to deserialize.
    pub fn try_from_bytes(bytes: &Vec<u8>) -> (r: Result<ClockData, DeserializationError>)
        ensures
            bytes@.len() == 40 ==> r == Ok::<ClockData, DeserializationError>(
                clock_data_of(bytes@),
            ),
            bytes@.len() != 40 ==> r == Err::<ClockData, DeserializationError>(
                DeserializationError,
            ),
    {
        if bytes.len() != 40 {
            return Err(DeserializationError);
        }
        Ok(
            ClockData {
                slot: read_le_u64(bytes, 0),
                epoch_start_timestamp: #[verifier::truncate] (read_le_u64(bytes, 8) as i64),
                epoch: read_le_u64(bytes, 16),
                leader_schedule_epoch: read_le_u64(bytes, 24),
                unix_timestamp: #[verifier::truncate] (read_le_u64(bytes, 32) as i64),
            },
        )
    }
}

} // verus!
