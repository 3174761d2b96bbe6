use vstd::prelude::*;

use crate::haptic::profile::{DetentProfile, HapticMode};
use crate::led::types::LedConfig;
use crate::text::str_eq;

verus! {

/// Haptic profile payload sent from host.
///
/// The two real-valued settings are carried as IEEE-754 single-precision bit
/// patterns.
#[derive(Debug, PartialEq)]
pub struct HapticConfig {
    pub mode: String,
    pub start_pos: u16,
    pub end_pos: u16,
    pub detent_count: u16,
    pub vernier: u8,
    pub kx_force: bool,
    pub output_ramp_bits: u32,
    pub detent_strength_bits: u32,
}

impl Clone for HapticConfig {
    fn clone(&self) -> (c: Self)
        ensures
            c == *self,
    {
        HapticConfig {
            mode: self.mode.clone(),
            start_pos: self.start_pos,
            end_pos: self.end_pos,
            detent_count: self.detent_count,
            vernier: self.vernier,
            kx_force: self.kx_force,
            output_ramp_bits: self.output_ramp_bits,
            detent_strength_bits: self.detent_strength_bits,
        }
    }
}

/// Haptic mode named by a mode string; both the lower- and upper-case
/// spellings are accepted and anything else means regular.
pub open spec fn mode_named(mode: Seq<char>) -> HapticMode {
    if mode == "vernier"@ || mode == "VERNIER"@ {
        HapticMode::Vernier
    } else if mode == "viscose"@ || mode == "VISCOSE"@ {
        HapticMode::Viscose
    } else if mode == "spring"@ || mode == "SPRING"@ {
        HapticMode::Spring
    } else {
        HapticMode::Regular
    }
}

/// Lower-case name of a haptic mode.
pub open spec fn mode_name(mode: HapticMode) -> Seq<char> {
    match mode {
        HapticMode::Regular => "regular"@,
        HapticMode::Vernier => "vernier"@,
        HapticMode::Viscose => "viscose"@,
        HapticMode::Spring => "spring"@,
    }
}

/// The detent profile a haptic configuration describes.
pub open spec fn detent_profile_of(h: HapticConfig) -> DetentProfile {
    DetentProfile {
        mode: mode_named(h.mode@),
        start_pos: h.start_pos,
        end_pos: h.end_pos,
        detent_count: h.detent_count,
        vernier: h.vernier,
        kx_force: h.kx_force,
        output_ramp_bits: h.output_ramp_bits,
        detent_strength_bits: h.detent_strength_bits,
    }
}

impl HapticConfig {
    pub fn to_detent_profile(&self) -> (p: DetentProfile)
        ensures
            p == detent_profile_of(*self),
    {
        let m = self.mode.as_str();
        let mode = if str_eq(m, "vernier") || str_eq(m, "VERNIER") {
            HapticMode::Vernier
        } else if str_eq(m, "viscose") || str_eq(m, "VISCOSE") {
            HapticMode::Viscose
        } else if str_eq(m, "spring") || str_eq(m, "SPRING") {
            HapticMode::Spring
        } else {
            HapticMode::Regular
        };
        DetentProfile {
            mode,
            start_pos: self.start_pos,
            end_pos: self.end_pos,
            detent_count: self.detent_count,
            vernier: self.vernier,
            kx_force: self.kx_force,
            output_ramp_bits: self.output_ramp_bits,
            detent_strength_bits: self.detent_strength_bits,
        }
    }

    pub fn from_detent_profile(p: &DetentProfile) -> (h: Self)
        ensures
            h.mode@ == mode_name(p.mode),
            h.start_pos == p.start_pos,
            h.end_pos == p.end_pos,
            h.detent_count == p.detent_count,
            h.vernier == p.vernier,
            h.kx_force == p.kx_force,
            h.output_ramp_bits == p.output_ramp_bits,
            h.detent_strength_bits == p.detent_strength_bits,
    {
        let mode = match p.mode {
            HapticMode::Regular => "regular",
            HapticMode::Vernier => "vernier",
            HapticMode::Viscose => "viscose",
            HapticMode::Spring => "spring",
        };
        HapticConfig {
            mode: String::from_str(mode),
            start_pos: p.start_pos,
            end_pos: p.end_pos,
            detent_count: p.detent_count,
            vernier: p.vernier,
            kx_force: p.kx_force,
            output_ramp_bits: p.output_ramp_bits,
            detent_strength_bits: p.detent_strength_bits,
        }
    }
}

/// A detent profile survives the trip through its wire form unchanged.
pub proof fn law_detent_profile_roundtrip(p: DetentProfile, h: HapticConfig)
    requires
        h.mode@ == mode_name(p.mode),
        h.start_pos == p.start_pos,
        h.end_pos == p.end_pos,
        h.detent_count == p.detent_count,
        h.vernier == p.vernier,
        h.kx_force == p.kx_force,
        h.output_ramp_bits == p.output_ramp_bits,
        h.detent_strength_bits == p.detent_strength_bits,
    ensures
        detent_profile_of(h) == p,
{
    reveal_strlit("regular");
    reveal_strlit("vernier");
    reveal_strlit("VERNIER");
    reveal_strlit("viscose");
    reveal_strlit("VISCOSE");
    reveal_strlit("spring");
    reveal_strlit("SPRING");
    match p.mode {
        HapticMode::Regular => {
            assert("regular"@[0] != "vernier"@[0]);
            assert("regular"@[0] != "VERNIER"@[0]);
            assert("regular"@[0] != "spring"@[0]);
            assert("regular"@[0] != "SPRING"@[0]);
        },
        HapticMode::Vernier => {},
        HapticMode::Viscose => {
            assert("viscose"@[2] != "vernier"@[2]);
            assert("viscose"@[0] != "VERNIER"@[0]);
        },
        HapticMode::Spring => {
            assert("spring"@[0] != "vernier"@[0]);
            assert("spring"@[0] != "VERNIER"@[0]);
            assert("spring"@[0] != "viscose"@[0]);
            assert("spring"@[0] != "VISCOSE"@[0]);
        },
    }
}

/// Full profile payload: a name and optional haptic and LED configurations.
#[derive(Debug, PartialEq)]
pub struct ProfilePayload {
    pub name: String,
    pub haptic: Option<HapticConfig>,
    pub led: Option<LedConfig>,
}

impl Clone for ProfilePayload {
    fn clone(&self) -> (c: Self)
        ensures
            c == *self,
    {
        let haptic = match &self.haptic {
            Some(h) => Some(h.clone()),
            None => None,
        };
        ProfilePayload { name: self.name.clone(), haptic, led: self.led }
    }
}

/// Device settings.
#[derive(Debug, Clone, Copy, PartialEq, Eq, Structural)]
pub struct SettingsPayload {
    pub midi_channel: Option<u8>,
    pub orientation: Option<u8>,
    pub led_brightness: Option<u8>,
    pub idle_timeout_s: Option<u16>,
}

impl Default for SettingsPayload {
    fn default() -> (s: Self)
        ensures
            s == (SettingsPayload {
                midi_channel: Some(1),
                orientation: Some(0),
                led_brightness: Some(200),
                idle_timeout_s: Some(30),
            }),
    {
        SettingsPayload {
            midi_channel: Some(1),
            orientation: Some(0),
            led_brightness: Some(200),
            idle_timeout_s: Some(30),
        }
    }
}

/// Motor control commands.
#[derive(Debug, Clone, Copy, PartialEq, Eq, Structural)]
pub struct MotorCommand {
    pub recalibrate: bool,
}

/// Screen layout command; `data` is the JSON text of its data field.
#[derive(Debug, PartialEq)]
pub struct ScreenCommand {
    pub layout: String,
    pub data: String,
}

/// Track metadata for the media screen.
#[derive(Debug, PartialEq)]
pub struct MediaMetaPayload {
    pub title: String,
    pub artist: String,
    pub duration: u32,
    pub position: u32,
    pub playing: bool,
}

/// A base64-encoded chunk of album art to store at `offset`.
#[derive(Debug, PartialEq)]
pub struct MediaArtPayload {
    pub offset: u32,
    pub data: String,
}

/// Inbound command from host → device.
#[derive(Debug, PartialEq)]
pub enum Command {
    /// Upload/update the current profile's haptic config.
    SetProfile(ProfilePayload),
    /// Update device settings.
    SetSettings(SettingsPayload),
    /// Motor control commands (recalibrate, etc).
    Motor(MotorCommand),
    /// Screen layout command (forwarded to LCD thread).
    Screen(ScreenCommand),
    /// Persist current state to SPIFFS.
    Save,
    /// Load a profile by name from SPIFFS.
    Load(String),
    /// List all stored profile names.
    List,
    /// Get current profile as JSON.
    Get,
    /// Get current device settings as JSON.
    GetSettings,
    /// Switch the display between the media screen (true) and the value screen.
    MediaMode(bool),
    /// Show track metadata.
    MediaMeta(MediaMetaPayload),
    /// Store a base64 chunk of album art.
    MediaArt(MediaArtPayload),
    /// All album art chunks have been sent.
    MediaArtDone,
    /// Raw album art of this many bytes follows on the serial line.
    MediaArtBin(u32),
    /// Pick the haptic feel for media control by name ("volume" or "scrub").
    MediaHaptic(String),
}

/// Outbound event from device → host.
#[derive(Debug, PartialEq)]
pub enum Event {
    Angle(AngleEvent),
    Key(KeyEvent),
    Message(MessageEvent),
    ProfileResponse(ProfileResponse),
    SettingsResponse(SettingsResponse),
    ListResponse(ListResponse),
}

#[derive(Debug, Clone, Copy, PartialEq, Eq, Structural)]
pub struct AngleEvent {
    pub angle: AngleData,
}

#[derive(Debug, Clone, Copy, PartialEq, Eq, Structural)]
pub struct AngleData {
    pub cur_pos: u16,
}

#[derive(Debug, PartialEq)]
pub struct KeyEvent {
    pub key: KeyData,
}

#[derive(Debug, PartialEq)]
pub struct KeyData {
    pub num: u8,
    pub state: String,
}

#[derive(Debug, PartialEq)]
pub struct MessageEvent {
    pub msg: MessageData,
}

#[derive(Debug, PartialEq)]
pub struct MessageData {
    pub msg_type: String,
    pub text: String,
}

#[derive(Debug, PartialEq)]
pub struct ProfileResponse {
    pub profile: ProfilePayload,
}

#[derive(Debug, Clone, Copy, PartialEq, Eq, Structural)]
pub struct SettingsResponse {
    pub settings: SettingsPayload,
}

#[derive(Debug, PartialEq)]
pub struct ListResponse {
    pub profiles: Vec<String>,
}

} // verus!
