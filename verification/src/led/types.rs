use vstd::prelude::*;

verus! {

/// 24-bit RGB color.
#[derive(Debug, Clone, Copy, PartialEq, Eq, Structural)]
pub struct Rgb {
    pub r: u8,
    pub g: u8,
    pub b: u8,
}

/// One channel scaled by a 0-255 brightness, rounded down.
pub open spec fn scale_channel(c: u8, brightness: u8) -> u8 {
    ((c as int * brightness as int) / 255) as u8
}

impl Rgb {
    pub fn new(r: u8, g: u8, b: u8) -> (c: Self)
        ensures
            c == (Rgb { r, g, b }),
    {
        Rgb { r, g, b }
    }

    /// Create from a 0xRRGGBB hex value; bits above the low 24 are ignored.
    pub fn from_hex(hex: u32) -> (c: Self)
        ensures
            c.r == (hex / 0x10000) % 0x100,
            c.g == (hex / 0x100) % 0x100,
            c.b == hex % 0x100,
    {
        assert(((hex >> 16) & 0xFF) == (hex / 0x10000) % 0x100) by (bit_vector);
        assert(((hex >> 8) & 0xFF) == (hex / 0x100) % 0x100) by (bit_vector);
        assert((hex & 0xFF) == hex % 0x100) by (bit_vector);
        Rgb {
            r: ((hex >> 16) & 0xFF) as u8,
            g: ((hex >> 8) & 0xFF) as u8,
            b: (hex & 0xFF) as u8,
        }
    }

    /// Apply brightness scaling (0-255). 0 = off, 255 = full.
    pub fn scaled(self, brightness: u8) -> (c: Self)
        ensures
            c.r == scale_channel(self.r, brightness),
            c.g == scale_channel(self.g, brightness),
            c.b == scale_channel(self.b, brightness),
    {
        Rgb {
            r: scale_u8(self.r, brightness),
            g: scale_u8(self.g, brightness),
            b: scale_u8(self.b, brightness),
        }
    }
}

fn scale_u8(c: u8, brightness: u8) -> (out: u8)
    ensures
        out == scale_channel(c, brightness),
{
    assert(c as int * brightness as int <= 255 * 255) by (nonlinear_arith)
        requires
            c <= 255,
            brightness <= 255,
    ;
    let prod: u16 = c as u16 * brightness as u16;
    assert(prod / 255 <= 255);
    (prod / 255) as u8
}

impl Default for Rgb {
    fn default() -> (c: Self)
        ensures
            c == (Rgb { r: 0, g: 0, b: 0 }),
    {
        Rgb { r: 0, g: 0, b: 0 }
    }
}

/// Per-button idle/pressed colors.
#[derive(Debug, Clone, Copy, PartialEq, Eq, Structural)]
pub struct ButtonColors {
    pub idle: Rgb,
    pub pressed: Rgb,
}

/// The hex value of a color: 0xRRGGBB.
pub open spec fn rgb_hex(c: Rgb) -> int {
    c.r as int * 0x10000 + c.g as int * 0x100 + c.b as int
}

impl Default for ButtonColors {
    fn default() -> (c: Self)
        ensures
            rgb_hex(c.idle) == 0x08596C,
            rgb_hex(c.pressed) == 0xFFFFFF,
    {
        ButtonColors { idle: Rgb::from_hex(0x08596C), pressed: Rgb::from_hex(0xFFFFFF) }
    }
}

/// LED configuration for a profile.
#[derive(Debug, Clone, Copy, PartialEq, Eq)]
pub struct LedConfig {
    pub enabled: bool,
    pub brightness: u8,
    pub pointer_col: Rgb,
    pub primary_col: Rgb,
    pub secondary_col: Rgb,
    pub button_colors: [ButtonColors; 4],
}

/// Value of `enabled` when a configuration leaves it out.
pub fn default_true() -> (b: bool)
    ensures
        b,
{
    true
}

/// Value of `brightness` when a configuration leaves it out.
pub fn default_brightness() -> (b: u8)
    ensures
        b == 100,
{
    100
}

/// Value of `pointer_col` when a configuration leaves it out: white.
pub fn default_pointer_col() -> (c: Rgb)
    ensures
        rgb_hex(c) == 0xFFFFFF,
{
    Rgb::from_hex(0xFFFFFF)
}

/// Value of `primary_col` when a configuration leaves it out.
pub fn default_primary_col() -> (c: Rgb)
    ensures
        rgb_hex(c) == 0x08596C,
{
    Rgb::from_hex(0x08596C)
}

/// Value of `secondary_col` when a configuration leaves it out.
pub fn default_secondary_col() -> (c: Rgb)
    ensures
        rgb_hex(c) == 0x47040D,
{
    Rgb::from_hex(0x47040D)
}

/// Idle colors of the four buttons in the default configuration.
pub open spec fn default_idle_hex(btn: int) -> int {
    if btn == 0 {
        0x08596C
    } else if btn == 1 {
        0x1A2E52
    } else if btn == 2 {
        0x200524
    } else {
        0x47040D
    }
}

/// `cfg` is the configuration used when a profile brings none: enabled at
/// brightness 100, white pointer, teal primary, dark red secondary, and the
/// default button colors.
pub open spec fn is_default_led_config(cfg: LedConfig) -> bool {
    &&& cfg.enabled
    &&& cfg.brightness == 100
    &&& rgb_hex(cfg.pointer_col) == 0xFFFFFF
    &&& rgb_hex(cfg.primary_col) == 0x08596C
    &&& rgb_hex(cfg.secondary_col) == 0x47040D
    &&& forall|btn: int|
        0 <= btn < 4 ==> rgb_hex(#[trigger] cfg.button_colors@[btn].idle) == default_idle_hex(btn)
            && rgb_hex(cfg.button_colors@[btn].pressed) == 0xFFFFFF
}

/// A color with each channel scaled by `brightness`, as `Rgb::scaled` does.
pub open spec fn scaled_rgb(c: Rgb, brightness: u8) -> Rgb {
    Rgb {
        r: scale_channel(c.r, brightness),
        g: scale_channel(c.g, brightness),
        b: scale_channel(c.b, brightness),
    }
}

impl Default for LedConfig {
    fn default() -> (cfg: Self)
        ensures
            is_default_led_config(cfg),
    {
        let white = Rgb::from_hex(0xFFFFFF);
        LedConfig {
            enabled: true,
            brightness: 100,
            pointer_col: Rgb::from_hex(0xFFFFFF),
            primary_col: Rgb::from_hex(0x08596C),
            secondary_col: Rgb::from_hex(0x47040D),
            button_colors: [
                ButtonColors { idle: Rgb::from_hex(0x08596C), pressed: white },
                ButtonColors { idle: Rgb::from_hex(0x1A2E52), pressed: white },
                ButtonColors { idle: Rgb::from_hex(0x200524), pressed: white },
                ButtonColors { idle: Rgb::from_hex(0x47040D), pressed: white },
            ],
        }
    }
}

/// Full brightness leaves a channel as it is, and zero brightness turns it
/// off.
pub proof fn law_brightness_extremes(c: u8)
    ensures
        scale_channel(c, 255) == c,
        scale_channel(c, 0) == 0,
{
    assert((c as int * 255) / 255 == c as int) by (nonlinear_arith);
    assert((c as int * 0) / 255 == 0) by (nonlinear_arith);
}

} // verus!
