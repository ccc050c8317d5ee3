//! MIDI note messages, the packets that carry them, and the connection query.

use vstd::prelude::*;
use crate::packet::{encode, packet_of};

verus! {

/// Status byte of Note On on channel 0.
pub const NOTE_ON_STATUS: u8 = 0x90;

/// Status byte of Note Off on channel 0.
pub const NOTE_OFF_STATUS: u8 = 0x80;

/// The BLE-MIDI service UUID, fixed by the BLE-MIDI specification.
pub const MIDI_SERVICE_UUID: &'static str = "03B80E5A-EDE8-4B33-A751-6CE34EC4C700";

/// The BLE-MIDI I/O characteristic UUID, fixed by the BLE-MIDI specification.
pub const MIDI_CHARACTERISTIC_UUID: &'static str = "7772E5DB-3868-4112-A1A9-F2669D106BF3";

/// The name the peripheral advertises.
pub const DEVICE_NAME: &'static str = "ESP32 BLE MIDI Device";

/// BLE appearance code of a generic MIDI device.
pub const MIDI_APPEARANCE: u16 = 0x0508;

/// A three-byte channel-voice message.
pub open spec fn note_message(status: u8, note: u8, velocity: u8) -> Seq<u8> {
    seq![status, note, velocity]
}

/// Whether a peripheral with `count` live connections counts as connected.
pub open spec fn connected_spec(count: nat) -> bool {
    count > 0
}

/// True exactly when at least one central is connected.
pub fn is_connected(connected_count: usize) -> (r: bool)
    ensures
        r == connected_spec(connected_count as nat),
{
    connected_count > 0
}

/// The query mirrors the live connection count: false with no central, true
/// right after a central connects to a peripheral that had `before`
/// connections, and after one of them leaves, false exactly when it was the
/// last.
pub proof fn lemma_connected_mirrors_count(before: nat)
    ensures
        !connected_spec(0),
        connected_spec(before + 1),
        before >= 1 ==> (connected_spec((before - 1) as nat) <==> before >= 2),
{
}

/// The packet that sends `note_message(status, note, velocity)` at `ts`.
fn note_packet(ts: u32, status: u8, note: u8, velocity: u8) -> (r: Vec<u8>)
    ensures
        r@ == packet_of(ts, note_message(status, note, velocity)),
{
    let message: [u8; 3] = [status, note, velocity];
    let r = encode(ts, &message);
    assert(message@ == note_message(status, note, velocity));
    r
}

/// The packet of a Note On on channel 0 sent at `ts` milliseconds. The data
/// bytes are passed on as given.
pub fn note_on_packet(ts: u32, note: u8, velocity: u8) -> (r: Vec<u8>)
    ensures
        r@ == packet_of(ts, note_message(NOTE_ON_STATUS, note, velocity)),
{
    note_packet(ts, NOTE_ON_STATUS, note, velocity)
}

/// The packet of a Note Off on channel 0 sent at `ts` milliseconds. The data
/// bytes are passed on as given.
pub fn note_off_packet(ts: u32, note: u8, velocity: u8) -> (r: Vec<u8>)
    ensures
        r@ == packet_of(ts, note_message(NOTE_OFF_STATUS, note, velocity)),
{
    note_packet(ts, NOTE_OFF_STATUS, note, velocity)
}

} // verus!
