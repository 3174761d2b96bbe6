//! Angle decoding and turn counting for the MT6701 magnetic angle sensor.
//!
//! The sensor answers each SSI read with a 24-bit frame whose first 14 bits
//! are the absolute angle. The tracker turns the stream of single-turn angles
//! into a multi-turn count by watching for jumps of more than half a turn.
use vstd::prelude::*;

verus! {

/// Counts per mechanical revolution (14-bit angle).
pub const MT6701_RESOLUTION: u16 = 16384;

/// Half a revolution in counts: a jump larger than this between two reads is
/// taken as a wrap through zero.
pub const HALF_TURN: i32 = 8192;

/// The angle carried by the first two bytes of a sensor frame: the 8 bits of
/// the first byte followed by the top 6 bits of the second.
pub open spec fn mt6701_angle(b0: u8, b1: u8) -> int {
    b0 as int * 64 + b1 as int / 4
}

/// Decodes the 14-bit angle from the first two received bytes of a frame.
pub fn mt6701_raw(b0: u8, b1: u8) -> (raw: u16)
    ensures
        raw == mt6701_angle(b0, b1),
        raw < MT6701_RESOLUTION,
{
    let hi: u16 = b0 as u16;
    let lo: u16 = b1 as u16;
    let raw: u16 = ((hi << 6u16) | (lo >> 2u16)) & 0x3FFFu16;
    assert(((hi << 6u16) | (lo >> 2u16)) & 0x3FFFu16 == hi * 64 + lo / 4) by (bit_vector)
        requires
            hi < 256,
            lo < 256,
    ;
    raw
}

/// Decodes the angle from the SPI receive word, whose lowest byte holds the
/// first byte received and the next byte the second.
pub fn mt6701_raw_from_word(w0: u32) -> (raw: u16)
    ensures
        raw == mt6701_angle((w0 % 256) as u8, ((w0 / 256) % 256) as u8),
        raw < MT6701_RESOLUTION,
{
    let byte0: u8 = (w0 & 0xFFu32) as u8;
    let byte1: u8 = ((w0 >> 8u32) & 0xFFu32) as u8;
    assert(w0 & 0xFFu32 == w0 % 256) by (bit_vector);
    assert((w0 >> 8u32) & 0xFFu32 == (w0 / 256) % 256) by (bit_vector);
    mt6701_raw(byte0, byte1)
}

/// How many whole turns a move from `prev` to `raw` adds: a drop of more
/// than half a turn is a forward wrap, a rise of more than half a turn a
/// backward one.
pub open spec fn turn_step(prev: u16, raw: u16) -> int {
    let diff = raw as int - prev as int;
    if diff < -(HALF_TURN as int) {
        1
    } else if diff > HALF_TURN as int {
        -1
    } else {
        0
    }
}

/// Multi-turn position bookkeeping of the encoder.
pub struct RotationTracker {
    /// The last single-turn reading, in counts.
    pub prev_raw: u16,
    /// Whole turns counted since the last zeroing.
    pub full_rotations: i32,
}

impl RotationTracker {
    /// The multi-turn position in counts.
    pub open spec fn position(&self) -> int {
        self.full_rotations as int * MT6701_RESOLUTION as int + self.prev_raw as int
    }

    /// A tracker at turn zero whose last reading was zero.
    pub fn new() -> (t: Self)
        ensures
            t.prev_raw == 0,
            t.full_rotations == 0,
    {
        RotationTracker { prev_raw: 0, full_rotations: 0 }
    }

    /// Takes a new single-turn reading and adjusts the turn count.
    pub fn update(&mut self, raw: u16)
        requires
            raw < MT6701_RESOLUTION,
            i32::MIN <= old(self).full_rotations + turn_step(old(self).prev_raw, raw) <= i32::MAX,
        ensures
            final(self).prev_raw == raw,
            final(self).full_rotations == old(self).full_rotations + turn_step(old(self).prev_raw, raw),
            old(self).prev_raw < MT6701_RESOLUTION ==> -(HALF_TURN as int) <= final(self).position()
                - old(self).position() <= HALF_TURN as int,
    {
        let diff: i32 = raw as i32 - self.prev_raw as i32;
        if diff < -HALF_TURN {
            self.full_rotations = self.full_rotations + 1;
        } else if diff > HALF_TURN {
            self.full_rotations = self.full_rotations - 1;
        }
        self.prev_raw = raw;
    }

    /// Makes `raw` the reference reading: the turn count restarts at zero.
    pub fn set_zero(&mut self, raw: u16)
        ensures
            final(self).prev_raw == raw,
            final(self).full_rotations == 0,
    {
        self.full_rotations = 0;
        self.prev_raw = raw;
    }
}

} // verus!
