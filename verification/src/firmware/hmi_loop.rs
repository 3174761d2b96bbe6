//! Decisions of the HMI thread: what a configuration message changes, which
//! key events a button poll reports, and what the LED strips show.
//!
//! The thread itself reads the GPIOs, waits between passes and pushes the
//! frames out; every choice it makes is taken here from its state.
use vstd::prelude::*;

use crate::bounded::{button_event_slice, button_events};
use crate::firmware::ipc::HmiCommand;
use crate::hmi::button::{debounce_prefix, ButtonDebouncer, ButtonEvent, ButtonEventType};
use crate::led::button_leds::{button_color, led_owner, update_button_leds, BUTTON_LED_COUNT};
use crate::led::ring::{
    clamped_indicator, halves_color, halves_pointer, led_index_for, offset_for_orientation,
    orientation_to_offset, position_to_led_index, RING_LED_COUNT,
};
use crate::led::types::{is_default_led_config, scaled_rgb, LedConfig, Rgb};
use crate::protocol::command::{KeyData, KeyEvent};

verus! {

/// Pause between two passes of the HMI loop (100 Hz).
pub const LOOP_DELAY_MS: u32 = 10;

/// Least time between two LED frames (about 60 frames a second).
pub const LED_SHOW_INTERVAL_MS: u32 = 16;

/// Device brightness before any settings arrive.
pub const DEFAULT_BRIGHTNESS: u8 = 200;

/// Knob positions span 0..=255 on the ring.
pub const RING_POSITION_MAX: u16 = 255;

/// The state word of a key event: "pressed" or "released".
pub open spec fn key_state_word(t: ButtonEventType) -> Seq<char> {
    match t {
        ButtonEventType::Pressed => "pressed"@,
        ButtonEventType::Released => "released"@,
    }
}

/// `k` reports button event `e` to the host.
pub open spec fn reports(k: KeyEvent, e: ButtonEvent) -> bool {
    k.key.num == e.index && k.key.state@ == key_state_word(e.event_type)
}

/// The key event sent to the host for a debounced button event.
pub fn key_event_for(e: ButtonEvent) -> (k: KeyEvent)
    ensures
        reports(k, e),
{
    let state = match e.event_type {
        ButtonEventType::Pressed => String::from_str("pressed"),
        ButtonEventType::Released => String::from_str("released"),
    };
    KeyEvent { key: KeyData { num: e.index, state } }
}

/// A new LED frame is due once at least `LED_SHOW_INTERVAL_MS` have passed
/// since the last one, counting across a wrap of the millisecond clock.
pub open spec fn frame_due(now_ms: u32, last_ms: u32) -> bool {
    now_ms.wrapping_sub(last_ms) >= LED_SHOW_INTERVAL_MS
}

/// The brightness the LEDs are drawn at: the lower of the device setting
/// and the profile's LED brightness.
pub open spec fn effective_brightness(device: u8, led: u8) -> u8 {
    if device <= led {
        device
    } else {
        led
    }
}

/// State kept by the HMI thread between passes.
pub struct HmiState {
    pub debouncer: ButtonDebouncer,
    pub led_config: LedConfig,
    pub brightness: u8,
    pub orientation: u8,
    /// Latest knob position reported by the motor thread.
    pub current_pos: u16,
    pub last_led_show_ms: u32,
    pub ring_buf: [Rgb; 60],
    pub button_buf: [Rgb; 8],
}

impl HmiState {
    /// The state the thread starts in: no key held, default LED
    /// configuration, brightness 200, orientation 0, position 0, and dark
    /// strips.
    pub fn new() -> (s: Self)
        ensures
            s.debouncer.wf(),
            s.debouncer@.key_state == 0,
            is_default_led_config(s.led_config),
            s.brightness == DEFAULT_BRIGHTNESS,
            s.orientation == 0,
            s.current_pos == 0,
            s.last_led_show_ms == 0,
            forall|i: int| 0 <= i < 60 ==> #[trigger] s.ring_buf@[i] == (Rgb { r: 0, g: 0, b: 0 }),
            forall|i: int| 0 <= i < 8 ==> #[trigger] s.button_buf@[i] == (Rgb { r: 0, g: 0, b: 0 }),
    {
        let black = Rgb::default();
        HmiState {
            debouncer: ButtonDebouncer::new(),
            led_config: LedConfig::default(),
            brightness: DEFAULT_BRIGHTNESS,
            orientation: 0,
            current_pos: 0,
            last_led_show_ms: 0,
            ring_buf: [black; 60],
            button_buf: [black, black, black, black, black, black, black, black],
        }
    }

    /// Applies a configuration message from the COM thread.
    pub fn apply_command(&mut self, cmd: HmiCommand)
        ensures
            match cmd {
                HmiCommand::UpdateLedConfig(cfg) => *final(self) == (HmiState { led_config: cfg, ..*old(self) }),
                HmiCommand::UpdateSettings { brightness, orientation } => *final(self) == (HmiState {
                    brightness,
                    orientation,
                    ..*old(self)
                }),
            },
    {
        match cmd {
            HmiCommand::UpdateLedConfig(cfg) => {
                self.led_config = cfg;
            },
            HmiCommand::UpdateSettings { brightness, orientation } => {
                self.brightness = brightness;
                self.orientation = orientation;
            },
        }
    }

    /// Feeds one reading of the four button levels to the debouncer and
    /// returns the key events to send to the host, one per debounced
    /// change, in button order.
    pub fn poll_buttons(&mut self, levels: [bool; 4], now_ms: u32) -> (keys: Vec<KeyEvent>)
        requires
            old(self).debouncer.wf(),
        ensures
            final(self).debouncer.wf(),
            final(self).debouncer@ == debounce_prefix(old(self).debouncer@, levels@, now_ms, 4).0,
            keys.len() == debounce_prefix(old(self).debouncer@, levels@, now_ms, 4).1.len(),
            forall|i: int|
                0 <= i < keys.len() ==> reports(
                    #[trigger] keys@[i],
                    debounce_prefix(old(self).debouncer@, levels@, now_ms, 4).1[i],
                ),
            final(self).led_config == old(self).led_config,
            final(self).brightness == old(self).brightness,
            final(self).orientation == old(self).orientation,
            final(self).current_pos == old(self).current_pos,
            final(self).last_led_show_ms == old(self).last_led_show_ms,
            final(self).ring_buf == old(self).ring_buf,
            final(self).button_buf == old(self).button_buf,
    {
        let events = self.debouncer.update(levels, now_ms);
        let evs = button_event_slice(&events);
        let mut keys: Vec<KeyEvent> = Vec::new();
        let mut i: usize = 0;
        while i < evs.len()
            invariant
                0 <= i <= evs@.len(),
                evs@ == button_events(events),
                keys.len() == i,
                forall|j: int| 0 <= j < i ==> reports(#[trigger] keys@[j], evs@[j]),
            decreases evs@.len() - i,
        {
            let k = key_event_for(evs[i]);
            keys.push(k);
            i = i + 1;
        }
        keys
    }

    /// Draws the next LED frame if one is due. Returns whether the strips
    /// should be sent out: a due frame with LEDs enabled is drawn (ring
    /// pointer at the knob position, button colors by held keys, all at the
    /// effective brightness); a due frame with LEDs disabled only restarts
    /// the frame timer.
    pub fn render_leds(&mut self, now_ms: u32) -> (show: bool)
        ensures
            !frame_due(now_ms, old(self).last_led_show_ms) ==> *final(self) == *old(self) && !show,
            frame_due(now_ms, old(self).last_led_show_ms) ==> final(self).last_led_show_ms == now_ms,
            show == (frame_due(now_ms, old(self).last_led_show_ms) && old(self).led_config.enabled),
            frame_due(now_ms, old(self).last_led_show_ms) && !old(self).led_config.enabled
                ==> final(self).ring_buf == old(self).ring_buf
                && final(self).button_buf == old(self).button_buf,
            final(self).debouncer == old(self).debouncer,
            final(self).led_config == old(self).led_config,
            final(self).brightness == old(self).brightness,
            final(self).orientation == old(self).orientation,
            final(self).current_pos == old(self).current_pos,
            show ==> forall|i: int|
                0 <= i < RING_LED_COUNT ==> #[trigger] final(self).ring_buf@[(i + offset_for_orientation(
                    old(self).orientation,
                )) % 60] == halves_color(
                    i,
                    clamped_indicator(
                        led_index_for(old(self).current_pos, 0, RING_POSITION_MAX) as usize,
                    ),
                    scaled_rgb(
                        old(self).led_config.pointer_col,
                        effective_brightness(old(self).brightness, old(self).led_config.brightness),
                    ),
                    scaled_rgb(
                        old(self).led_config.primary_col,
                        effective_brightness(old(self).brightness, old(self).led_config.brightness),
                    ),
                    scaled_rgb(
                        old(self).led_config.secondary_col,
                        effective_brightness(old(self).brightness, old(self).led_config.brightness),
                    ),
                ),
            show ==> forall|led: int|
                0 <= led < BUTTON_LED_COUNT ==> #[trigger] final(self).button_buf@[led] == scaled_rgb(
                    button_color(
                        old(self).debouncer@.key_state,
                        old(self).led_config.button_colors,
                        led_owner(led),
                    ),
                    effective_brightness(old(self).brightness, old(self).led_config.brightness),
                ),
    {
        if now_ms.wrapping_sub(self.last_led_show_ms) < LED_SHOW_INTERVAL_MS {
            return false;
        }
        self.last_led_show_ms = now_ms;
        if !self.led_config.enabled {
            return false;
        }
        let led_index = position_to_led_index(self.current_pos, 0, RING_POSITION_MAX);
        let offset = orientation_to_offset(self.orientation);
        let eff = if self.brightness <= self.led_config.brightness {
            self.brightness
        } else {
            self.led_config.brightness
        };
        let pointer = self.led_config.pointer_col.scaled(eff);
        let primary = self.led_config.primary_col.scaled(eff);
        let secondary = self.led_config.secondary_col.scaled(eff);
        halves_pointer(&mut self.ring_buf, led_index, offset, pointer, primary, secondary);
        let key_state = self.debouncer.key_state();
        update_button_leds(&mut self.button_buf, key_state, &self.led_config.button_colors);
        let ghost unscaled = self.button_buf;
        let ghost drawn = *self;
        let mut i: usize = 0;
        while i < BUTTON_LED_COUNT
            invariant
                0 <= i <= BUTTON_LED_COUNT,
                self.debouncer == drawn.debouncer,
                self.led_config == drawn.led_config,
                self.brightness == drawn.brightness,
                self.orientation == drawn.orientation,
                self.current_pos == drawn.current_pos,
                self.last_led_show_ms == drawn.last_led_show_ms,
                self.ring_buf == drawn.ring_buf,
                forall|led: int|
                    0 <= led < BUTTON_LED_COUNT ==> #[trigger] unscaled@[led] == button_color(
                        key_state,
                        self.led_config.button_colors,
                        led_owner(led),
                    ),
                forall|led: int| 0 <= led < i ==> #[trigger] self.button_buf@[led] == scaled_rgb(unscaled@[led], eff),
                forall|led: int| i <= led < BUTTON_LED_COUNT ==> #[trigger] self.button_buf@[led] == unscaled@[led],
            decreases BUTTON_LED_COUNT - i,
        {
            let px = self.button_buf[i].scaled(eff);
            self.button_buf[i] = px;
            i = i + 1;
        }
        true
    }
}


/// The LEDs are never drawn brighter than the device setting nor than the
/// profile's LED brightness, and are drawn at one of the two.
pub proof fn law_effective_brightness_is_lower(device: u8, led: u8)
    ensures
        effective_brightness(device, led) <= device,
        effective_brightness(device, led) <= led,
        effective_brightness(device, led) == device || effective_brightness(device, led) == led,
{
}
} // verus!
