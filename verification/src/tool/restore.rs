//! What a full-flash restore decides before it writes.
use vstd::prelude::*;

use crate::tool::constants::FLASH_SIZE;

verus! {

/// The refusal of a restore without `--force`.
pub fn restore_refusal() -> (s: &'static str)
    ensures
        s@ == "Restore overwrites the ENTIRE flash including bootloader, NVS, and SPIFFS.\nPass --force to confirm this destructive operation."@,
{
    "Restore overwrites the ENTIRE flash including bootloader, NVS, and SPIFFS.\nPass --force to confirm this destructive operation."
}

/// Whether a restore image's size differs from the flash size, which is
/// warned about but does not stop a forced restore.
pub fn restore_size_mismatch(image_len: usize) -> (b: bool)
    ensures
        b == (image_len != FLASH_SIZE),
{
    image_len != FLASH_SIZE as usize
}

} // verus!
