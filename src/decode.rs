use vstd::prelude::*;

use crate::reader::ReadError;
use crate::reading::{status_from_byte, status_of, SensorReading};

verus! {

/// Length of the current-readings payload:
/// `[co2:u16][temp:u16][pressure:u16][humidity:u8][battery:u8][status:u8][interval:u16][ago:u16]`,
/// all little-endian.
pub const PAYLOAD_LEN: usize = 13;

/// The little-endian 16-bit value stored at `at` and `at + 1`.
pub open spec fn le16(b: Seq<u8>, at: int) -> int {
    b[at] as int + 256 * (b[at + 1] as int)
}

/// The reading that a payload of at least `PAYLOAD_LEN` bytes stands for,
/// stamped with `timestamp`. The trailing interval and age fields are not part
/// of a reading.
pub open spec fn reading_of(b: Seq<u8>, timestamp: u64) -> SensorReading {
    SensorReading {
        co2: le16(b, 0) as u16,
        temperature_raw: le16(b, 2) as u16,
        pressure: (le16(b, 4) / 10) as u16,
        humidity: b[6],
        battery: b[7],
        timestamp,
        status: status_of(b[8]),
    }
}

/// What decoding `b` at `timestamp` gives: a reading, or `MalformedPayload`
/// when the payload is short.
pub open spec fn decode_result(b: Seq<u8>, timestamp: u64) -> Result<SensorReading, ReadError> {
    if b.len() < PAYLOAD_LEN {
        Err(ReadError::MalformedPayload)
    } else {
        Ok(reading_of(b, timestamp))
    }
}

fn read_le16(data: &[u8], at: usize) -> (r: u16)
    requires
        at + 1 < data@.len(),
    ensures
        r as int == le16(data@, at as int),
{
    let lo = data[at] as u16;
    let hi = data[at + 1] as u16;
    lo + 256 * hi
}

/// Decodes a current-readings payload taken at `timestamp`.
///
/// Fails with `MalformedPayload` exactly when fewer than `PAYLOAD_LEN` bytes
/// are given; bytes past that length are ignored, and no field is checked
/// against the firmware's ranges.
pub fn decode_payload(data: &[u8], timestamp: u64) -> (r: Result<SensorReading, ReadError>)
    ensures
        data@.len() < PAYLOAD_LEN ==> r == Err::<SensorReading, ReadError>(ReadError::MalformedPayload),
        data@.len() >= PAYLOAD_LEN ==> r == Ok::<SensorReading, ReadError>(reading_of(data@, timestamp)),
        r == decode_result(data@, timestamp),
{
    if data.len() < PAYLOAD_LEN {
        return Err(ReadError::MalformedPayload);
    }
    let co2 = read_le16(data, 0);
    let temperature_raw = read_le16(data, 2);
    let pressure_raw = read_le16(data, 4);
    let humidity = data[6];
    let battery = data[7];
    let status = status_from_byte(data[8]);
    let _interval = read_le16(data, 9);
    let _ago = read_le16(data, 11);
    Ok(SensorReading {
        co2,
        temperature_raw,
        humidity,
        pressure: pressure_raw / 10,
        battery,
        timestamp,
        status,
    })
}

} // verus!
