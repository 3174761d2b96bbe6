//! Byte framing for the two WS2811 LED strips and the RMT bit symbols that
//! encode them.
use vstd::prelude::*;
use crate::led::types::Rgb;

verus! {

/// RMT tick rate: 10 MHz, so one tick is 100 ns.
pub const RMT_RESOLUTION_HZ: u32 = 10_000_000;

/// One RMT symbol: a high phase and a low phase, each a duration in ticks
/// and a line level.
#[derive(Clone, Copy, Debug, PartialEq, Eq)]
pub struct RmtSymbol {
    pub duration0: u16,
    pub level0: u8,
    pub duration1: u16,
    pub level1: u8,
}

/// A zero bit: 300 ns high, 900 ns low.
pub fn ws2811_bit0() -> (s: RmtSymbol)
    ensures
        s == (RmtSymbol { duration0: 3, level0: 1, duration1: 9, level1: 0 }),
{
    RmtSymbol { duration0: 3, level0: 1, duration1: 9, level1: 0 }
}

/// A one bit: 600 ns high, 600 ns low.
pub fn ws2811_bit1() -> (s: RmtSymbol)
    ensures
        s == (RmtSymbol { duration0: 6, level0: 1, duration1: 6, level1: 0 }),
{
    RmtSymbol { duration0: 6, level0: 1, duration1: 6, level1: 0 }
}

/// The ring strip takes three bytes per LED in red, green, blue order.
pub open spec fn ring_frame(pixels: Seq<Rgb>) -> Seq<u8> {
    Seq::new(pixels.len() * 3, |k: int| {
        let px = pixels[k / 3];
        if k % 3 == 0 { px.r } else if k % 3 == 1 { px.g } else { px.b }
    })
}

/// The button strip takes three bytes per LED in green, red, blue order.
pub open spec fn button_frame(pixels: Seq<Rgb>) -> Seq<u8> {
    Seq::new(pixels.len() * 3, |k: int| {
        let px = pixels[k / 3];
        if k % 3 == 0 { px.g } else if k % 3 == 1 { px.r } else { px.b }
    })
}

/// The bytes sent to the ring strip for its 60 LEDs.
pub fn ring_bytes(pixels: &[Rgb; 60]) -> (buf: Vec<u8>)
    ensures
        buf@ == ring_frame(pixels@),
{
    let mut buf: Vec<u8> = Vec::new();
    let mut i: usize = 0;
    while i < 60
        invariant
            i <= 60,
            pixels@.len() == 60,
            buf@ == ring_frame(pixels@.take(i as int)),
        decreases 60 - i,
    {
        let px = pixels[i];
        buf.push(px.r);
        buf.push(px.g);
        buf.push(px.b);
        proof {
            let s = pixels@.take(i as int + 1);
            assert forall|k: int| 0 <= k < s.len() * 3 implies #[trigger] buf@[k] == ring_frame(s)[k] by {
                if k < i * 3 {
                    assert(pixels@.take(i as int)[k / 3] == s[k / 3]);
                }
            }
            assert(buf@ =~= ring_frame(s));
        }
        i = i + 1;
    }
    assert(pixels@.take(60) =~= pixels@);
    buf
}

/// The bytes sent to the button strip for its 8 LEDs.
pub fn button_bytes(pixels: &[Rgb; 8]) -> (buf: Vec<u8>)
    ensures
        buf@ == button_frame(pixels@),
{
    let mut buf: Vec<u8> = Vec::new();
    let mut i: usize = 0;
    while i < 8
        invariant
            i <= 8,
            pixels@.len() == 8,
            buf@ == button_frame(pixels@.take(i as int)),
        decreases 8 - i,
    {
        let px = pixels[i];
        buf.push(px.g);
        buf.push(px.r);
        buf.push(px.b);
        proof {
            let s = pixels@.take(i as int + 1);
            assert forall|k: int| 0 <= k < s.len() * 3 implies #[trigger] buf@[k] == button_frame(s)[k] by {
                if k < i * 3 {
                    assert(pixels@.take(i as int)[k / 3] == s[k / 3]);
                }
            }
            assert(buf@ =~= button_frame(s));
        }
        i = i + 1;
    }
    assert(pixels@.take(8) =~= pixels@);
    buf
}

} // verus!
