//! Milliseconds from the monotonic microsecond clock.

use vstd::prelude::*;
use crate::packet::{TIMESTAMP_MODULUS, packet_of};

verus! {

/// Whole milliseconds in `micros` microseconds, cut to 32 bits.
pub open spec fn millis_of(micros: u64) -> u32 {
    ((micros / 1000) % 0x1_0000_0000) as u32
}

/// Turns a reading of the microsecond clock into milliseconds since the
/// same reference.
pub fn millis_from_micros(micros: u64) -> (r: u32)
    ensures
        r == millis_of(micros),
{
    let ms: u64 = micros / 1000;
    (ms % 0x1_0000_0000u64) as u32
}

/// Cutting milliseconds to 32 bits loses nothing that reaches the wire: the
/// packet depends only on the milliseconds modulo 2^13.
pub proof fn lemma_millis_on_wire(micros: u64, message: Seq<u8>)
    ensures
        millis_of(micros) % TIMESTAMP_MODULUS == (micros / 1000) % 8192,
        packet_of(millis_of(micros), message) == packet_of(
            ((micros / 1000) % 8192) as u32,
            message,
        ),
{
    let ms: u64 = micros / 1000;
    assert((ms % 0x1_0000_0000u64) % 8192 == ms % 8192) by (bit_vector);
    crate::packet::lemma_timestamp_wraps(millis_of(micros), message);
}

} // verus!
