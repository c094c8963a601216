use aranet4_server::decode::{decode_payload, PAYLOAD_LEN};
use aranet4_server::reader::ReadError;
use aranet4_server::reading::{status_from_byte, status_from_label, SensorReading, Status};

const SAMPLE: [u8; 13] = [0xC8, 0x02, 0x40, 0x01, 0xC8, 0x03, 0x32, 0x55, 0x01, 0x00, 0x00, 0x00, 0x00];

#[test]
fn decodes_documented_example() {
    let r = decode_payload(&SAMPLE, 1_700_000_000).unwrap();
    assert_eq!(r.co2, 712);
    assert_eq!(r.temperature_raw, 320);
    assert_eq!(r.temperature_raw as f32 / 20.0, 16.0);
    assert_eq!(r.pressure, 96);
    assert_eq!(r.humidity, 50);
    assert_eq!(r.battery, 85);
    assert_eq!(r.status, Status::Green);
    assert_eq!(r.timestamp, 1_700_000_000);
}

#[test]
fn decodes_high_bytes_and_truncates_pressure() {
    let data = [0xFF, 0xFF, 0x01, 0x02, 0x0F, 0x27, 0xFF, 0x00, 0x03, 0x2C, 0x01, 0x05, 0x00];
    let r = decode_payload(&data, 5).unwrap();
    let expected = SensorReading {
        co2: 65535,
        temperature_raw: 0x0201,
        humidity: 255,
        pressure: 999,
        battery: 0,
        timestamp: 5,
        status: Status::Red,
    };
    assert_eq!(r, expected);
}

#[test]
fn ignores_bytes_past_the_payload() {
    let mut data = SAMPLE.to_vec();
    data.extend_from_slice(&[9, 9, 9]);
    assert_eq!(decode_payload(&data, 1), decode_payload(&SAMPLE, 1));
}

#[test]
fn rejects_every_truncation() {
    for n in 0..PAYLOAD_LEN {
        assert_eq!(decode_payload(&SAMPLE[..n], 1), Err(ReadError::MalformedPayload));
    }
    assert_eq!(PAYLOAD_LEN, 13);
}

#[test]
fn out_of_range_status_is_unknown_not_an_error() {
    let mut data = SAMPLE;
    data[8] = 7;
    assert_eq!(decode_payload(&data, 1).unwrap().status, Status::Unknown);
}

#[test]
fn status_mapping_covers_every_byte() {
    for b in 0..=255u8 {
        let s = status_from_byte(b);
        match b {
            1 => assert_eq!(s, Status::Green),
            2 => assert_eq!(s, Status::Yellow),
            3 => assert_eq!(s, Status::Red),
            _ => assert_eq!(s, Status::Unknown),
        }
    }
}

#[test]
fn status_labels() {
    assert_eq!(Status::Green.label(), "GREEN");
    assert_eq!(Status::Yellow.label(), "YELLOW");
    assert_eq!(Status::Red.label(), "RED");
    assert_eq!(Status::Unknown.label(), "UNKNOWN");
}

#[test]
fn labels_read_back() {
    for s in [Status::Green, Status::Yellow, Status::Red, Status::Unknown] {
        assert_eq!(status_from_label(s.label().as_bytes()), s);
    }
    assert_eq!(status_from_label(b"green"), Status::Unknown);
    assert_eq!(status_from_label(b"GREENX"), Status::Unknown);
    assert_eq!(status_from_label(b""), Status::Unknown);
    assert_eq!(status_from_label(b"RED"), Status::Red);
}
