use vstd::prelude::*;

use super::types::{ButtonColors, Rgb};

verus! {

pub const BUTTON_LED_COUNT: usize = 8;

/// The button that owns LED `led` of the 8-LED strip: button 0 drives
/// LEDs 3 and 4, button 1 drives 2 and 5, button 2 drives 1 and 6 and
/// button 3 drives 0 and 7.
pub open spec fn led_owner(led: int) -> int {
    if led <= 3 {
        3 - led
    } else {
        led - 4
    }
}

/// The two LEDs of button `btn`, inner one first.
pub open spec fn button_leds_of(btn: int) -> (int, int) {
    (3 - btn, 4 + btn)
}

/// The LEDs each button drives: {3,4}, {2,5}, {1,6} and {0,7}.
pub fn button_led_map() -> (m: [[usize; 2]; 4])
    ensures
        forall|btn: int|
            0 <= btn < 4 ==> #[trigger] m@[btn]@[0] == button_leds_of(btn).0 && m@[btn]@[1]
                == button_leds_of(btn).1,
{
    [[3, 4], [2, 5], [1, 6], [0, 7]]
}

/// Every LED of the strip belongs to exactly one button: LED `led` is one
/// of the two LEDs of button `btn` exactly when `btn` owns it.
pub proof fn law_each_led_has_one_button(led: int, btn: int)
    requires
        0 <= led < BUTTON_LED_COUNT,
        0 <= btn < 4,
    ensures
        (button_leds_of(btn).0 == led || button_leds_of(btn).1 == led) <==> led_owner(led) == btn,
        0 <= led_owner(led) < 4,
{
}

/// Whether button `btn` is held according to a 4-bit key-state mask.
pub open spec fn button_held(key_state: u8, btn: int) -> bool {
    (key_state as int / pow2_small(btn)) % 2 == 1
}

/// 2 to the power `n` for the four button bits.
pub open spec fn pow2_small(n: int) -> int {
    if n == 0 {
        1
    } else if n == 1 {
        2
    } else if n == 2 {
        4
    } else {
        8
    }
}

/// Color shown for button `btn` under `key_state`.
pub open spec fn button_color(key_state: u8, colors: [ButtonColors; 4], btn: int) -> Rgb {
    if button_held(key_state, btn) {
        colors@[btn].pressed
    } else {
        colors@[btn].idle
    }
}

fn key_bit(btn: usize) -> (bit: u8)
    requires
        btn < 4,
    ensures
        bit as int == pow2_small(btn as int),
{
    if btn == 0 {
        1
    } else if btn == 1 {
        2
    } else if btn == 2 {
        4
    } else {
        8
    }
}

fn is_held(key_state: u8, btn: usize) -> (held: bool)
    requires
        btn < 4,
    ensures
        held == button_held(key_state, btn as int),
{
    let bit = key_bit(btn);
    proof {
        let k = key_state;
        if btn == 0 {
            assert((k & 1u8 != 0) == ((k as int / 1) % 2 == 1)) by (bit_vector);
        } else if btn == 1 {
            assert((k & 2u8 != 0) == ((k as int / 2) % 2 == 1)) by (bit_vector);
        } else if btn == 2 {
            assert((k & 4u8 != 0) == ((k as int / 4) % 2 == 1)) by (bit_vector);
        } else {
            assert((k & 8u8 != 0) == ((k as int / 8) % 2 == 1)) by (bit_vector);
        }
    }
    (key_state & bit) != 0
}

/// Fill a button LED buffer based on key state and per-button colors.
///
/// Each of the 4 buttons maps to 2 LEDs. If the button is pressed (bit set in
/// `key_state`), its LEDs get the `pressed` color; otherwise they get the
/// `idle` color. Every LED of the strip belongs to exactly one button, so
/// the whole buffer is rewritten.
pub fn update_button_leds(
    buf: &mut [Rgb; BUTTON_LED_COUNT],
    key_state: u8,
    colors: &[ButtonColors; 4],
)
    ensures
        forall|led: int|
            0 <= led < BUTTON_LED_COUNT ==> #[trigger] final(buf)@[led] == button_color(
                key_state,
                *colors,
                led_owner(led),
            ),
{
    let mut btn: usize = 0;
    while btn < 4
        invariant
            0 <= btn <= 4,
            forall|b: int|
                0 <= b < btn ==> #[trigger] buf@[3 - b] == button_color(key_state, *colors, b),
            forall|b: int|
                0 <= b < btn ==> #[trigger] buf@[4 + b] == button_color(key_state, *colors, b),
        decreases 4 - btn,
    {
        let pressed = is_held(key_state, btn);
        let color = if pressed {
            colors[btn].pressed
        } else {
            colors[btn].idle
        };
        assert(color == button_color(key_state, *colors, btn as int));
        buf[3 - btn] = color;
        buf[4 + btn] = color;
        btn = btn + 1;
    }
    assert forall|led: int| 0 <= led < BUTTON_LED_COUNT implies #[trigger] buf@[led]
        == button_color(key_state, *colors, led_owner(led)) by {
        if led <= 3 {
            assert(buf@[3 - (3 - led)] == button_color(key_state, *colors, 3 - led));
        } else {
            assert(buf@[4 + (led - 4)] == button_color(key_state, *colors, led - 4));
        }
    }
}

} // verus!
