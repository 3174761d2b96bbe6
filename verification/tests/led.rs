use nanod::led::button_leds::{button_led_map, update_button_leds, BUTTON_LED_COUNT};
use nanod::led::ring::{halves_pointer, orientation_to_offset, position_to_led_index, RING_LED_COUNT};
use nanod::led::types::{ButtonColors, LedConfig, Rgb};

fn red() -> Rgb {
    Rgb::new(255, 0, 0)
}

fn green() -> Rgb {
    Rgb::new(0, 255, 0)
}

fn blue() -> Rgb {
    Rgb::new(0, 0, 255)
}

fn white() -> Rgb {
    Rgb::new(255, 255, 255)
}

fn test_colors() -> [ButtonColors; 4] {
    [
        ButtonColors { idle: red(), pressed: white() },
        ButtonColors { idle: green(), pressed: white() },
        ButtonColors { idle: blue(), pressed: white() },
        ButtonColors { idle: Rgb::new(128, 128, 128), pressed: white() },
    ]
}

#[test]
fn test_all_idle() {
    let mut buf = [Rgb::default(); BUTTON_LED_COUNT];
    update_button_leds(&mut buf, 0x0, &test_colors());
    assert_eq!(buf[3], red());
    assert_eq!(buf[4], red());
    assert_eq!(buf[2], green());
    assert_eq!(buf[5], green());
    assert_eq!(buf[1], blue());
    assert_eq!(buf[6], blue());
    assert_eq!(buf[0], Rgb::new(128, 128, 128));
    assert_eq!(buf[7], Rgb::new(128, 128, 128));
}

#[test]
fn test_all_pressed() {
    let mut buf = [Rgb::default(); BUTTON_LED_COUNT];
    update_button_leds(&mut buf, 0xF, &test_colors());
    for i in 0..BUTTON_LED_COUNT {
        assert_eq!(buf[i], white(), "LED {i} should be WHITE when all pressed");
    }
}

#[test]
fn test_single_button_pressed() {
    let mut buf = [Rgb::default(); BUTTON_LED_COUNT];
    update_button_leds(&mut buf, 0x1, &test_colors());
    assert_eq!(buf[3], white());
    assert_eq!(buf[4], white());
    assert_eq!(buf[2], green());
    assert_eq!(buf[5], green());
    assert_eq!(buf[1], blue());
    assert_eq!(buf[6], blue());
}

#[test]
fn test_two_buttons_pressed() {
    let mut buf = [Rgb::default(); BUTTON_LED_COUNT];
    update_button_leds(&mut buf, 0xA, &test_colors());
    assert_eq!(buf[3], red());
    assert_eq!(buf[2], white());
    assert_eq!(buf[5], white());
    assert_eq!(buf[1], blue());
    assert_eq!(buf[0], white());
    assert_eq!(buf[7], white());
}

#[test]
fn test_led_mapping_coverage() {
    let mut mapped = [false; BUTTON_LED_COUNT];
    for btn_leds in &button_led_map() {
        for &idx in btn_leds {
            assert!(!mapped[idx], "LED {idx} mapped twice");
            mapped[idx] = true;
        }
    }
    for (i, &m) in mapped.iter().enumerate() {
        assert!(m, "LED {i} not mapped to any button");
    }
}

#[test]
fn test_halves_pointer_at_zero() {
    let mut buf = [Rgb::default(); RING_LED_COUNT];
    halves_pointer(&mut buf, 0, 0, white(), red(), blue());
    assert_eq!(buf[0], white());
    for i in 1..RING_LED_COUNT {
        assert_eq!(buf[i], blue(), "LED {i} should be secondary");
    }
}

#[test]
fn test_halves_pointer_at_end() {
    let mut buf = [Rgb::default(); RING_LED_COUNT];
    halves_pointer(&mut buf, RING_LED_COUNT - 1, 0, white(), red(), blue());
    for i in 0..RING_LED_COUNT - 1 {
        assert_eq!(buf[i], red(), "LED {i} should be primary");
    }
    assert_eq!(buf[RING_LED_COUNT - 1], white());
}

#[test]
fn test_halves_pointer_midpoint() {
    let mut buf = [Rgb::default(); RING_LED_COUNT];
    halves_pointer(&mut buf, 30, 0, white(), red(), blue());
    for i in 0..30 {
        assert_eq!(buf[i], red(), "LED {i} should be primary");
    }
    assert_eq!(buf[30], white());
    for i in 31..RING_LED_COUNT {
        assert_eq!(buf[i], blue(), "LED {i} should be secondary");
    }
}

#[test]
fn test_halves_pointer_with_orientation() {
    let mut buf = [Rgb::default(); RING_LED_COUNT];
    halves_pointer(&mut buf, 0, 15, white(), red(), blue());
    assert_eq!(buf[15], white());
    assert_eq!(buf[16], blue());
}

#[test]
fn test_halves_pointer_orientation_wraps() {
    let mut buf = [Rgb::default(); RING_LED_COUNT];
    halves_pointer(&mut buf, 50, 30, white(), red(), blue());
    assert_eq!(buf[20], white());
}

#[test]
fn test_halves_pointer_clamps_indicator() {
    let mut buf = [Rgb::default(); RING_LED_COUNT];
    halves_pointer(&mut buf, 999, 0, white(), red(), blue());
    assert_eq!(buf[59], white());
}

#[test]
fn test_position_to_led_index_start() {
    assert_eq!(position_to_led_index(0, 0, 255), 0);
}

#[test]
fn test_position_to_led_index_end() {
    assert_eq!(position_to_led_index(255, 0, 255), 59);
}

#[test]
fn test_position_to_led_index_midpoint() {
    let idx = position_to_led_index(128, 0, 255);
    assert_eq!(idx, 29);
}

#[test]
fn test_position_to_led_index_with_offset() {
    let idx = position_to_led_index(60, 10, 110);
    assert_eq!(idx, 29);
}

#[test]
fn test_position_to_led_index_below_start() {
    assert_eq!(position_to_led_index(5, 10, 110), 0);
}

#[test]
fn test_position_to_led_index_zero_range() {
    assert_eq!(position_to_led_index(50, 100, 100), 0);
}

#[test]
fn test_orientation_to_offset() {
    assert_eq!(orientation_to_offset(0), 0);
    assert_eq!(orientation_to_offset(1), 15);
    assert_eq!(orientation_to_offset(2), 30);
    assert_eq!(orientation_to_offset(3), 45);
    assert_eq!(orientation_to_offset(4), 0);
}

#[test]
fn test_rgb_from_hex() {
    let c = Rgb::from_hex(0x08596C);
    assert_eq!(c, Rgb::new(0x08, 0x59, 0x6C));
}

#[test]
fn test_rgb_scaled_full() {
    let c = Rgb::new(100, 200, 50);
    assert_eq!(c.scaled(255), c);
}

#[test]
fn test_rgb_scaled_half() {
    let c = Rgb::new(100, 200, 50);
    let s = c.scaled(128);
    assert_eq!(s.r, 50);
    assert_eq!(s.g, 100);
    assert_eq!(s.b, 25);
}

#[test]
fn test_rgb_scaled_zero() {
    let c = Rgb::new(255, 255, 255);
    assert_eq!(c.scaled(0), Rgb::new(0, 0, 0));
}

#[test]
fn test_led_config_default() {
    let cfg = LedConfig::default();
    assert!(cfg.enabled);
    assert_eq!(cfg.brightness, 100);
    assert_eq!(cfg.pointer_col, Rgb::from_hex(0xFFFFFF));
}

#[test]
fn led_config_default_button_colors() {
    let cfg = LedConfig::default();
    assert_eq!(cfg.button_colors[0].idle, Rgb::from_hex(0x08596C));
    assert_eq!(cfg.button_colors[1].idle, Rgb::from_hex(0x1A2E52));
    assert_eq!(cfg.button_colors[2].idle, Rgb::from_hex(0x200524));
    assert_eq!(cfg.button_colors[3].idle, Rgb::from_hex(0x47040D));
    assert_eq!(cfg.primary_col, Rgb::new(0x08, 0x59, 0x6C));
    assert_eq!(cfg.secondary_col, Rgb::new(0x47, 0x04, 0x0D));
}

#[test]
fn rgb_from_hex_ignores_high_byte() {
    assert_eq!(Rgb::from_hex(0xFF123456), Rgb::new(0x12, 0x34, 0x56));
}

#[test]
fn halves_pointer_rotation_law_example() {
    // Logical slot i lands on physical LED (i + 45) % 60 for every slot.
    let mut plain = [Rgb::default(); RING_LED_COUNT];
    let mut turned = [Rgb::default(); RING_LED_COUNT];
    halves_pointer(&mut plain, 20, 0, white(), red(), blue());
    halves_pointer(&mut turned, 20, 45, white(), red(), blue());
    for i in 0..RING_LED_COUNT {
        assert_eq!(turned[(i + 45) % 60], plain[i]);
    }
}

#[test]
fn position_to_led_index_above_end_saturates() {
    assert_eq!(position_to_led_index(300, 10, 110), 59);
}

#[test]
fn halves_pointer_at_largest_orientation() {
    let mut buf = [Rgb::default(); RING_LED_COUNT];
    let orientation = usize::MAX - 59;
    halves_pointer(&mut buf, 0, orientation, white(), red(), blue());
    let first = orientation % 60;
    assert_eq!(buf[first], white());
    assert_eq!(buf[(first + 1) % 60], blue());
}
