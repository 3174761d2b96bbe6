use vstd::prelude::*;

use crate::text::{hex_byte, push_hex_byte};
use crate::tool::constants::{APP0_SIZE, ESP32_S3_CHIP_ID, ESP_IMAGE_MAGIC};
use crate::tool::error::{invalid_image, NanodError};

verus! {

/// Verdict of the size check on an image of `len` bytes.
pub open spec fn size_ok(len: nat) -> bool {
    0 < len <= APP0_SIZE
}

/// Validate firmware binary size fits in the app0 partition.
pub fn check_size(data: &[u8]) -> (r: Result<(), NanodError>)
    ensures
        data@.len() > APP0_SIZE ==> r == Err::<(), NanodError>(
            NanodError::FirmwareTooLarge { size: data@.len() as u64, max: APP0_SIZE as u64 },
        ),
        data@.len() == 0 ==> (r matches Err(e) && invalid_image(e, "firmware file is empty"@)),
        r is Ok <==> size_ok(data@.len()),
{
    let max = APP0_SIZE as u64;
    let size = data.len() as u64;
    if size > max {
        return Err(NanodError::FirmwareTooLarge { size, max });
    }
    if size == 0 {
        return Err(NanodError::InvalidImage { reason: String::from_str("firmware file is empty") });
    }
    Ok(())
}

/// Validate the ESP32 image header magic byte.
pub fn check_magic(data: &[u8]) -> (r: Result<(), NanodError>)
    ensures
        data@.len() == 0 ==> (r matches Err(e) && invalid_image(e, "firmware file is empty"@)),
        data@.len() > 0 && data@[0] != ESP_IMAGE_MAGIC ==> (r matches Err(e) && invalid_image(
            e,
            "bad magic byte: expected 0xE9, got 0x"@ + hex_byte(data@[0]),
        )),
        r is Ok <==> (data@.len() > 0 && data@[0] == ESP_IMAGE_MAGIC),
{
    if data.len() == 0 {
        return Err(NanodError::InvalidImage { reason: String::from_str("firmware file is empty") });
    }
    if data[0] != ESP_IMAGE_MAGIC {
        let mut reason = String::from_str("bad magic byte: expected 0xE9, got 0x");
        push_hex_byte(&mut reason, data[0]);
        return Err(NanodError::InvalidImage { reason });
    }
    Ok(())
}

/// The chip ID of an image: a little-endian u16 at offset 12.
pub open spec fn image_chip_id(data: Seq<u8>) -> u16 {
    (data[12] as int + data[13] as int * 256) as u16
}

/// Validate the chip ID matches ESP32-S3.
/// The chip ID is stored as a little-endian u16 at offset 12 in the image header.
pub fn check_chip_id(data: &[u8]) -> (r: Result<(), NanodError>)
    ensures
        data@.len() < 14 ==> (r matches Err(e) && invalid_image(
            e,
            "firmware too short to contain image header"@,
        )),
        data@.len() >= 14 && image_chip_id(data@) != ESP32_S3_CHIP_ID ==> r == Err::<
            (),
            NanodError,
        >(NanodError::WrongChip { expected: ESP32_S3_CHIP_ID, actual: image_chip_id(data@) }),
        r is Ok <==> (data@.len() >= 14 && image_chip_id(data@) == ESP32_S3_CHIP_ID),
{
    if data.len() < 14 {
        return Err(
            NanodError::InvalidImage {
                reason: String::from_str("firmware too short to contain image header"),
            },
        );
    }
    let chip_id = (data[12] as u16) + (data[13] as u16) * 256;
    if chip_id != ESP32_S3_CHIP_ID {
        return Err(NanodError::WrongChip { expected: ESP32_S3_CHIP_ID, actual: chip_id });
    }
    Ok(())
}

/// Run all binary validation checks: size, then magic byte, then chip ID;
/// the first failing check decides the error.
pub fn validate_all(data: &[u8]) -> (r: Result<(), NanodError>)
    ensures
        r is Ok <==> (size_ok(data@.len()) && data@[0] == ESP_IMAGE_MAGIC && data@.len() >= 14
            && image_chip_id(data@) == ESP32_S3_CHIP_ID),
        data@.len() > APP0_SIZE ==> r == Err::<(), NanodError>(
            NanodError::FirmwareTooLarge { size: data@.len() as u64, max: APP0_SIZE as u64 },
        ),
        data@.len() == 0 ==> (r matches Err(e) && invalid_image(e, "firmware file is empty"@)),
        size_ok(data@.len()) && data@[0] != ESP_IMAGE_MAGIC ==> (r matches Err(e)
            && invalid_image(e, "bad magic byte: expected 0xE9, got 0x"@ + hex_byte(data@[0]))),
        size_ok(data@.len()) && data@[0] == ESP_IMAGE_MAGIC && data@.len() < 14 ==> (r matches Err(
            e,
        ) && invalid_image(e, "firmware too short to contain image header"@)),
        size_ok(data@.len()) && data@[0] == ESP_IMAGE_MAGIC && data@.len() >= 14 && image_chip_id(
            data@,
        ) != ESP32_S3_CHIP_ID ==> r == Err::<(), NanodError>(
            NanodError::WrongChip { expected: ESP32_S3_CHIP_ID, actual: image_chip_id(data@) },
        ),
{
    match check_size(data) {
        Ok(()) => {},
        Err(e) => return Err(e),
    }
    match check_magic(data) {
        Ok(()) => {},
        Err(e) => return Err(e),
    }
    match check_chip_id(data) {
        Ok(()) => {},
        Err(e) => return Err(e),
    }
    Ok(())
}

} // verus!
