use ble_midi::midi::{
    is_connected, note_off_packet, note_on_packet, NOTE_OFF_STATUS, NOTE_ON_STATUS,
};
use ble_midi::packet::{encode, header_of, timestamp_lsb_of, TIMESTAMP_MODULUS};
use ble_midi::timestamp::millis_from_micros;

#[test]
fn note_on_at_zero() {
    assert_eq!(note_on_packet(0, 60, 100), vec![0x80, 0x80, 0x90, 60, 100]);
}

#[test]
fn note_off_at_200_ms() {
    let p = note_off_packet(200, 60, 0);
    assert_eq!(p[0], 0x81);
    assert_eq!(p[1], 0xC8);
    assert_eq!(p, vec![0x81, 0xC8, 0x80, 60, 0]);
}

#[test]
fn status_bytes() {
    assert_eq!(NOTE_ON_STATUS, 0x90);
    assert_eq!(NOTE_OFF_STATUS, 0x80);
}

#[test]
fn length_and_marker_bits() {
    let messages: Vec<Vec<u8>> = vec![vec![], vec![0x90], vec![0x90, 60, 100], vec![0; 40]];
    for ts in [0u32, 1, 127, 128, 8191, 8192, 123_456, u32::MAX] {
        for m in &messages {
            let p = encode(ts, m);
            assert_eq!(p.len(), m.len() + 2);
            assert_eq!(p[0] & 0x80, 0x80);
            assert_eq!(p[1] & 0x80, 0x80);
            assert_eq!(&p[2..], &m[..]);
        }
    }
}

#[test]
fn empty_message_gives_header_only() {
    assert_eq!(encode(5, &[]), vec![0x80, 0x85]);
}

#[test]
fn encode_is_deterministic() {
    for ts in [0u32, 1, 200, 4096, 8191] {
        let m = [0x90u8, 64, 127];
        assert_eq!(encode(ts, &m), encode(ts, &m));
    }
}

#[test]
fn distinct_timestamps_give_distinct_packets() {
    let m = [0x80u8, 60, 0];
    assert_ne!(encode(200, &m), encode(201, &m));
    assert_ne!(encode(127, &m), encode(128, &m));
}

#[test]
fn timestamp_wraps_at_13_bits() {
    let m = [0x90u8, 60, 100];
    assert_eq!(TIMESTAMP_MODULUS, 8192);
    assert_eq!(encode(8192, &m), encode(0, &m));
    assert_eq!(encode(8192 + 200, &m), encode(200, &m));
    assert_eq!(encode(u32::MAX, &m), encode(8191, &m));
}

#[test]
fn header_and_timestamp_bytes() {
    assert_eq!(header_of(0), 0x80);
    assert_eq!(timestamp_lsb_of(0), 0x80);
    assert_eq!(header_of(8191), 0xBF);
    assert_eq!(timestamp_lsb_of(8191), 0xFF);
    assert_eq!(header_of(1000), 0x87);
    assert_eq!(timestamp_lsb_of(1000), 0xE8);
}

#[test]
fn millis_from_clock() {
    assert_eq!(millis_from_micros(0), 0);
    assert_eq!(millis_from_micros(999), 0);
    assert_eq!(millis_from_micros(200_000), 200);
    assert_eq!(millis_from_micros(1_234_567), 1234);
    assert_eq!(millis_from_micros(u64::MAX), ((u64::MAX / 1000) % (1u64 << 32)) as u32);
}

#[test]
fn connection_state_follows_count() {
    assert!(!is_connected(0));
    assert!(is_connected(1));
    assert!(is_connected(3));
    assert!(!is_connected(1 - 1));
}
