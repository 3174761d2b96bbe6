//! Messages passed between the firmware threads.
use vstd::prelude::*;

use crate::haptic::profile::DetentProfile;
use crate::led::types::LedConfig;

verus! {

/// Commands sent from COM thread to HMI thread.
#[derive(Debug, Clone, Copy, PartialEq, Eq)]
pub enum HmiCommand {
    /// Update LED configuration from a profile.
    UpdateLedConfig(LedConfig),
    /// Update device settings relevant to HMI (brightness, orientation).
    UpdateSettings { brightness: u8, orientation: u8 },
}

/// Display modes.
#[derive(Debug, Clone, Copy, PartialEq, Eq, Structural)]
pub enum DisplayMode {
    Value,
    Media,
}

/// Commands sent from COM thread to display thread.
#[derive(Debug, PartialEq)]
pub enum DisplayCommand {
    /// Switch display mode (value screen vs media controller).
    SetMode(DisplayMode),
    /// Update media track metadata.
    MediaMeta { title: String, artist: String, duration_s: u32, position_s: u32, playing: bool },
    /// Album art chunk (raw RGB565 bytes, already decoded from base64).
    MediaArtChunk { offset: u32, data: Vec<u8> },
    /// Art transfer starting — hide canvas to prevent scanline artifacts.
    MediaArtStart,
    /// All art chunks sent — swap buffers and display the image.
    MediaArtDone,
}

/// Commands sent from COM thread to FOC thread.
#[derive(Debug, Clone, Copy, PartialEq, Eq, Structural)]
pub enum FocCommand {
    /// Update the haptic detent profile.
    UpdateHaptic(DetentProfile),
    /// Trigger motor recalibration.
    Recalibrate,
}

} // verus!
