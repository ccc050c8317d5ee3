//! BLE-MIDI packet framing.
//!
//! Every notification carries a header byte and a timestamp byte in front of
//! the MIDI message. Together they hold a 13-bit millisecond timestamp: the
//! header the upper six bits, the timestamp byte the lower seven, and both
//! have bit 7 set.

use vstd::prelude::*;

verus! {

/// Timestamps wrap at this value: only 13 bits reach the wire.
pub const TIMESTAMP_MODULUS: u32 = 8192;

/// The header byte for millisecond timestamp `ts`: bit 7 set, bits 12..7 of
/// `ts` below it.
pub open spec fn header_byte(ts: u32) -> u8 {
    (0x80 + (ts as int / 128) % 64) as u8
}

/// The timestamp byte for `ts`: bit 7 set, bits 6..0 of `ts` below it.
pub open spec fn timestamp_byte(ts: u32) -> u8 {
    (0x80 + ts as int % 128) as u8
}

/// The packet that carries `message` at timestamp `ts`.
pub open spec fn packet_of(ts: u32, message: Seq<u8>) -> Seq<u8> {
    seq![header_byte(ts), timestamp_byte(ts)] + message
}

/// Computes the header byte of a packet sent at `ts` milliseconds.
pub fn header_of(ts: u32) -> (r: u8)
    ensures
        r == header_byte(ts),
{
    let h: u32 = ((ts >> 7u32) & 0x3Fu32) | 0x80u32;
    assert(((ts >> 7u32) & 0x3Fu32) | 0x80u32 == 0x80u32 + ((ts >> 7u32) & 0x3Fu32))
        by (bit_vector);
    assert((ts >> 7u32) & 0x3Fu32 == (ts / 128) % 64) by (bit_vector);
    h as u8
}

/// Computes the timestamp byte of a packet sent at `ts` milliseconds.
pub fn timestamp_lsb_of(ts: u32) -> (r: u8)
    ensures
        r == timestamp_byte(ts),
{
    let l: u32 = (ts & 0x7Fu32) | 0x80u32;
    assert((ts & 0x7Fu32) | 0x80u32 == 0x80u32 + (ts & 0x7Fu32)) by (bit_vector);
    assert(ts & 0x7Fu32 == ts % 128) by (bit_vector);
    l as u8
}

/// Frames `message` as a BLE-MIDI packet stamped with `ts` milliseconds:
/// the header byte, the timestamp byte, then the message unchanged.
pub fn encode(ts: u32, message: &[u8]) -> (r: Vec<u8>)
    requires
        message@.len() + 2 <= usize::MAX,
    ensures
        r@ == packet_of(ts, message@),
{
    let mut out: Vec<u8> = Vec::with_capacity(message.len() + 2);
    out.push(header_of(ts));
    out.push(timestamp_lsb_of(ts));
    let mut i: usize = 0;
    while i < message.len()
        invariant
            i <= message@.len(),
            out@ == seq![header_byte(ts), timestamp_byte(ts)] + message@.subrange(0, i as int),
        decreases message@.len() - i,
    {
        out.push(message[i]);
        i = i + 1;
        assert(message@.subrange(0, i as int) == message@.subrange(0, i - 1) + seq![message@[i - 1]]);
    }
    assert(message@.subrange(0, message@.len() as int) == message@);
    out
}

/// Every packet is two bytes longer than its message, and its first two
/// bytes have bit 7 set.
pub proof fn lemma_packet_shape(ts: u32, message: Seq<u8>)
    ensures
        packet_of(ts, message).len() == message.len() + 2,
        packet_of(ts, message)[0] & 0x80u8 == 0x80u8,
        packet_of(ts, message)[1] & 0x80u8 == 0x80u8,
        packet_of(ts, message).subrange(2, message.len() + 2int) == message,
{
    let p = packet_of(ts, message);
    let h: u8 = p[0];
    let l: u8 = p[1];
    assert(0x80 <= h);
    assert(0x80 <= l);
    assert(h >= 0x80u8 ==> h & 0x80u8 == 0x80u8) by (bit_vector);
    assert(l >= 0x80u8 ==> l & 0x80u8 == 0x80u8) by (bit_vector);
    assert(p.subrange(2, message.len() + 2int) =~= message);
}

/// Within the 13-bit range the packet pins its timestamp down: two packets
/// of one message are equal exactly when their timestamps are.
pub proof fn lemma_timestamp_determines_packet(ts1: u32, ts2: u32, message: Seq<u8>)
    requires
        ts1 < TIMESTAMP_MODULUS,
        ts2 < TIMESTAMP_MODULUS,
    ensures
        packet_of(ts1, message) == packet_of(ts2, message) <==> ts1 == ts2,
{
    if packet_of(ts1, message) == packet_of(ts2, message) {
        assert(packet_of(ts1, message)[0] == packet_of(ts2, message)[0]);
        assert(packet_of(ts1, message)[1] == packet_of(ts2, message)[1]);
        assert(ts1 == 128 * ((ts1 / 128) % 64) + ts1 % 128);
        assert(ts2 == 128 * ((ts2 / 128) % 64) + ts2 % 128);
    }
}

/// Timestamps wrap at 2^13: a packet depends on its timestamp only modulo
/// `TIMESTAMP_MODULUS`.
pub proof fn lemma_timestamp_wraps(ts: u32, message: Seq<u8>)
    ensures
        packet_of(ts, message) == packet_of(ts % TIMESTAMP_MODULUS, message),
        packet_of(TIMESTAMP_MODULUS, message) == packet_of(0, message),
{
    let w: u32 = ts % 8192;
    assert((ts / 128) % 64 == ((ts % 8192) / 128) % 64) by (bit_vector);
    assert(ts % 128 == (ts % 8192) % 128) by (bit_vector);
    assert(header_byte(ts) == header_byte(w));
    assert(timestamp_byte(ts) == timestamp_byte(w));
    assert(header_byte(8192) == header_byte(0));
    assert(timestamp_byte(8192) == timestamp_byte(0));
}

} // verus!
