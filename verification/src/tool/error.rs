use vstd::prelude::*;

use crate::text::{decimal, lower_hex_byte, lower_hex_word, push_decimal, push_lower_hex_byte, push_lower_hex_word};

verus! {

/// Errors of the host tool's firmware checks.
#[derive(Debug, Clone, PartialEq, Eq)]
pub enum NanodError {
    /// No NanoD is connected.
    DeviceNotFound,
    /// The image is larger than the app partition.
    FirmwareTooLarge { size: u64, max: u64 },
    /// The image is malformed; `reason` says how.
    InvalidImage { reason: String },
    /// The image checksum byte disagrees with its contents.
    ChecksumMismatch { expected: u8, actual: u8 },
    /// The image was built for another chip.
    WrongChip { expected: u16, actual: u16 },
}

/// `e` is an invalid-image error with exactly this reason text.
pub open spec fn invalid_image(e: NanodError, reason: Seq<char>) -> bool {
    e matches NanodError::InvalidImage { reason: r } && r@ == reason
}

/// The text of an error, as the tool prints it.
pub open spec fn error_text(e: NanodError) -> Seq<char> {
    match e {
        NanodError::DeviceNotFound => "Device not found. Is the NanoD connected?"@,
        NanodError::FirmwareTooLarge { size, max } => "Firmware too large: "@ + decimal(size as nat)
            + " bytes (max "@ + decimal(max as nat) + " bytes)"@,
        NanodError::InvalidImage { reason } => "Invalid ESP32 image: "@ + reason@,
        NanodError::ChecksumMismatch { expected, actual } => "Checksum mismatch: expected 0x"@
            + lower_hex_byte(expected) + ", got 0x"@ + lower_hex_byte(actual),
        NanodError::WrongChip { expected, actual } => "Wrong chip ID: expected ESP32-S3 (0x"@
            + lower_hex_word(expected) + "), got 0x"@ + lower_hex_word(actual),
    }
}

impl NanodError {
    /// The error's text.
    pub fn message(&self) -> (s: String)
        ensures
            s@ == error_text(*self),
    {
        match self {
            NanodError::DeviceNotFound => String::from_str("Device not found. Is the NanoD connected?"),
            NanodError::FirmwareTooLarge { size, max } => {
                let mut s = String::from_str("Firmware too large: ");
                push_decimal(&mut s, *size);
                s.append(" bytes (max ");
                push_decimal(&mut s, *max);
                s.append(" bytes)");
                s
            },
            NanodError::InvalidImage { reason } => {
                let mut s = String::from_str("Invalid ESP32 image: ");
                s.append(reason.as_str());
                s
            },
            NanodError::ChecksumMismatch { expected, actual } => {
                let mut s = String::from_str("Checksum mismatch: expected 0x");
                push_lower_hex_byte(&mut s, *expected);
                s.append(", got 0x");
                push_lower_hex_byte(&mut s, *actual);
                s
            },
            NanodError::WrongChip { expected, actual } => {
                let mut s = String::from_str("Wrong chip ID: expected ESP32-S3 (0x");
                push_lower_hex_word(&mut s, *expected);
                s.append("), got 0x");
                push_lower_hex_word(&mut s, *actual);
                s
            },
        }
    }
}

} // verus!
