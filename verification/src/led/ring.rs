use vstd::prelude::*;

use super::types::Rgb;

verus! {

pub const RING_LED_COUNT: usize = 60;

/// Logical color of ring slot `i` when the pointer sits at `indicator`:
/// slots before it are primary, the pointer slot itself is the pointer
/// color and slots after it are secondary.
pub open spec fn halves_color(
    i: int,
    indicator: int,
    pointer_col: Rgb,
    primary_col: Rgb,
    secondary_col: Rgb,
) -> Rgb {
    if i < indicator {
        primary_col
    } else if i == indicator {
        pointer_col
    } else {
        secondary_col
    }
}

/// The pointer position actually drawn: the requested one, clamped to the ring.
pub open spec fn clamped_indicator(indicator: usize) -> int {
    if indicator < RING_LED_COUNT {
        indicator as int
    } else {
        RING_LED_COUNT - 1
    }
}

/// Fill a ring LED buffer using the halves-pointer algorithm.
///
/// LEDs before the indicator are filled with `primary_col`, LEDs after it with
/// `secondary_col`, and the indicator LED gets `pointer_col`. `orientation`
/// rotates the whole picture by that many LED positions, so logical slot `i`
/// lands on physical LED `(i + orientation) % 60`.
pub fn halves_pointer(
    buf: &mut [Rgb; RING_LED_COUNT],
    indicator: usize,
    orientation: usize,
    pointer_col: Rgb,
    primary_col: Rgb,
    secondary_col: Rgb,
)
    requires
        orientation + (RING_LED_COUNT - 1) <= usize::MAX,
    ensures
        forall|i: int|
            0 <= i < RING_LED_COUNT ==> #[trigger] final(buf)@[(i + orientation) % 60]
                == halves_color(
                i,
                clamped_indicator(indicator),
                pointer_col,
                primary_col,
                secondary_col,
            ),
{
    let ind = if indicator < RING_LED_COUNT - 1 {
        indicator
    } else {
        RING_LED_COUNT - 1
    };
    let mut i: usize = 0;
    while i < RING_LED_COUNT
        invariant
            0 <= i <= RING_LED_COUNT,
            orientation + (RING_LED_COUNT - 1) <= usize::MAX,
            ind as int == clamped_indicator(indicator),
            forall|j: int|
                0 <= j < i ==> #[trigger] buf@[(j + orientation) % 60] == halves_color(
                    j,
                    ind as int,
                    pointer_col,
                    primary_col,
                    secondary_col,
                ),
        decreases RING_LED_COUNT - i,
    {
        let color = if i < ind {
            primary_col
        } else if i == ind {
            pointer_col
        } else {
            secondary_col
        };
        let dest = (i + orientation) % RING_LED_COUNT;
        buf[dest] = color;
        assert forall|j: int| 0 <= j < i + 1 implies #[trigger] buf@[(j + orientation) % 60]
            == halves_color(j, ind as int, pointer_col, primary_col, secondary_col) by {
            if j < i {
                assert((j + orientation) % 60 != (i + orientation) % 60);
            }
        }
        i = i + 1;
    }
}

/// Map a knob position within `start_pos..=end_pos` to a ring LED index
/// (0..=59), rounding down. An empty or inverted range maps to 0, and
/// positions outside the range saturate at its ends.
pub open spec fn led_index_for(current_pos: u16, start_pos: u16, end_pos: u16) -> int {
    if end_pos <= start_pos {
        0
    } else {
        let range = end_pos - start_pos;
        let pos = if current_pos <= start_pos {
            0
        } else if current_pos - start_pos >= range {
            range
        } else {
            current_pos - start_pos
        };
        (pos * (RING_LED_COUNT - 1)) / range
    }
}

/// Map a knob position (e.g. 0..end_pos) to a ring LED index (0..59).
pub fn position_to_led_index(current_pos: u16, start_pos: u16, end_pos: u16) -> (index: usize)
    ensures
        index == led_index_for(current_pos, start_pos, end_pos),
        index < RING_LED_COUNT,
{
    if end_pos <= start_pos {
        return 0;
    }
    let range = end_pos - start_pos;
    let pos = if current_pos <= start_pos {
        0
    } else if current_pos - start_pos >= range {
        range
    } else {
        current_pos - start_pos
    };
    assert((pos as int * 59) / (range as int) <= 59) by (nonlinear_arith)
        requires
            pos <= range,
            range > 0,
    ;
    let index = (pos as u32 * (RING_LED_COUNT as u32 - 1)) / range as u32;
    index as usize
}

/// LED rotation offset for a device orientation: quarter turns of the
/// 60-LED ring, and 0 for any unknown orientation.
pub open spec fn offset_for_orientation(orientation: u8) -> int {
    if orientation == 1 {
        15
    } else if orientation == 2 {
        30
    } else if orientation == 3 {
        45
    } else {
        0
    }
}

/// Map device orientation (0-3) to LED rotation offset.
/// Orientation 0 = 0°, 1 = 90° (15 LEDs), 2 = 180° (30 LEDs), 3 = 270° (45 LEDs).
pub fn orientation_to_offset(orientation: u8) -> (offset: usize)
    ensures
        offset == offset_for_orientation(orientation),
{
    match orientation {
        0 => 0,
        1 => 15,
        2 => 30,
        3 => 45,
        _ => 0,
    }
}

} // verus!
