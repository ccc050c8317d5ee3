//! Bluetooth Low Energy MIDI peripheral: packet framing, timestamps and the
//! connection-state query, with their contracts.

pub mod packet;
pub mod timestamp;
pub mod midi;
