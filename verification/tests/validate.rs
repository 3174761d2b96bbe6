use nanod::tool::constants::{APP0_SIZE, ESP_IMAGE_MAGIC};
use nanod::tool::error::NanodError;
use nanod::tool::validate::binary::{check_chip_id, check_magic, check_size, validate_all};
use nanod::tool::validate::checksum::verify_checksum;
use nanod::tool::validate::partition::{partition_size, validate_fits_app0, PartitionFit};
use nanod::tool::restore::{restore_refusal, restore_size_mismatch};

#[test]
fn test_empty_firmware_rejected() {
    assert!(check_size(&[]).is_err());
    assert!(check_magic(&[]).is_err());
}

#[test]
fn test_wrong_magic_rejected() {
    let data = vec![0x00; 24];
    assert!(check_magic(&data).is_err());
}

#[test]
fn test_correct_magic_accepted() {
    let mut data = vec![0x00; 24];
    data[0] = ESP_IMAGE_MAGIC;
    assert!(check_magic(&data).is_ok());
}

#[test]
fn test_wrong_chip_id_rejected() {
    let mut data = vec![0x00; 24];
    data[0] = ESP_IMAGE_MAGIC;
    data[12] = 0x00;
    data[13] = 0x00;
    assert!(check_chip_id(&data).is_err());
}

#[test]
fn test_correct_chip_id_accepted() {
    let mut data = vec![0x00; 24];
    data[0] = ESP_IMAGE_MAGIC;
    data[12] = 0x09;
    data[13] = 0x00;
    assert!(check_chip_id(&data).is_ok());
}

#[test]
fn test_firmware_too_large_rejected() {
    let data = vec![0x00; APP0_SIZE as usize + 1];
    assert!(check_size(&data).is_err());
}

#[test]
fn test_firmware_at_max_size_accepted() {
    let data = vec![0x00; APP0_SIZE as usize];
    assert!(check_size(&data).is_ok());
}

#[test]
fn test_too_short_rejected() {
    assert!(verify_checksum(&[0xE9; 10]).is_err());
}

#[test]
fn test_zero_segments_valid() {
    let mut data = vec![0u8; 32];
    data[0] = 0xE9;
    data[1] = 0;
    data[31] = 0xEF;
    assert!(verify_checksum(&data).is_ok());
}

#[test]
fn error_messages_match_the_tool() {
    assert_eq!(
        NanodError::FirmwareTooLarge { size: 10, max: 5 }.message(),
        "Firmware too large: 10 bytes (max 5 bytes)"
    );
    assert_eq!(
        NanodError::ChecksumMismatch { expected: 0xAB, actual: 0x0c }.message(),
        "Checksum mismatch: expected 0xab, got 0x0c"
    );
    assert_eq!(
        NanodError::WrongChip { expected: 9, actual: 0x1a2 }.message(),
        "Wrong chip ID: expected ESP32-S3 (0x0009), got 0x01a2"
    );
    assert_eq!(
        NanodError::InvalidImage { reason: "x".to_string() }.message(),
        "Invalid ESP32 image: x"
    );
    assert_eq!(NanodError::DeviceNotFound.message(), "Device not found. Is the NanoD connected?");
}

#[test]
fn size_error_carries_sizes() {
    let data = vec![0x00; APP0_SIZE as usize + 1];
    assert_eq!(
        check_size(&data),
        Err(NanodError::FirmwareTooLarge { size: APP0_SIZE as u64 + 1, max: APP0_SIZE as u64 })
    );
}

#[test]
fn magic_error_reason() {
    let data = vec![0x12u8; 24];
    assert_eq!(
        check_magic(&data),
        Err(NanodError::InvalidImage { reason: "bad magic byte: expected 0xE9, got 0x12".to_string() })
    );
}

#[test]
fn chip_error_values() {
    let mut data = vec![0x00; 24];
    data[0] = ESP_IMAGE_MAGIC;
    data[12] = 0x02;
    data[13] = 0x01;
    assert_eq!(check_chip_id(&data), Err(NanodError::WrongChip { expected: 9, actual: 0x0102 }));
}

#[test]
fn chip_check_needs_header() {
    let data = vec![ESP_IMAGE_MAGIC; 13];
    assert_eq!(
        check_chip_id(&data),
        Err(NanodError::InvalidImage { reason: "firmware too short to contain image header".to_string() })
    );
}

#[test]
fn validate_all_reports_first_failure() {
    // Wrong magic and wrong chip: the magic error comes first.
    let data = vec![0x00; 24];
    assert!(matches!(validate_all(&data), Err(NanodError::InvalidImage { .. })));
    let mut good = vec![0x00; 24];
    good[0] = ESP_IMAGE_MAGIC;
    good[12] = 0x09;
    assert_eq!(validate_all(&good), Ok(()));
}

fn one_segment_image(payload: &[u8], checksum: u8) -> Vec<u8> {
    let mut data = vec![0u8; 24];
    data[0] = 0xE9;
    data[1] = 1;
    data[12] = 0x09;
    data.extend_from_slice(&[0, 0, 0, 0]);
    data.extend_from_slice(&(payload.len() as u32).to_le_bytes());
    data.extend_from_slice(payload);
    let end = (data.len() + 16) & !15;
    data.resize(end, 0);
    let last = data.len() - 1;
    data[last] = checksum;
    data
}

#[test]
fn checksum_of_one_segment() {
    let payload = [0x01u8, 0x02, 0x04];
    let sum = 0xEF ^ 0x01 ^ 0x02 ^ 0x04;
    assert_eq!(verify_checksum(&one_segment_image(&payload, sum)), Ok(()));
    assert_eq!(
        verify_checksum(&one_segment_image(&payload, 0x00)),
        Err(NanodError::ChecksumMismatch { expected: 0x00, actual: sum })
    );
}

#[test]
fn checksum_truncated_segment() {
    let mut data = vec![0u8; 28];
    data[0] = 0xE9;
    data[1] = 1;
    assert_eq!(
        verify_checksum(&data),
        Err(NanodError::InvalidImage { reason: "segment 0 header truncated at offset 24".to_string() })
    );
    let mut data = vec![0u8; 40];
    data[0] = 0xE9;
    data[1] = 1;
    data[28] = 100;
    assert_eq!(
        verify_checksum(&data),
        Err(NanodError::InvalidImage {
            reason: "segment 0 data truncated: need 100 bytes at offset 32, have 8".to_string()
        })
    );
}

#[test]
fn partition_fit() {
    assert_eq!(partition_size("app0"), Some(APP0_SIZE));
    assert_eq!(partition_size("nope"), None);
    assert_eq!(
        validate_fits_app0(100),
        Ok(PartitionFit { firmware_size: 100, partition_size: APP0_SIZE })
    );
    assert_eq!(
        validate_fits_app0(APP0_SIZE as usize + 1),
        Err(PartitionFit { firmware_size: APP0_SIZE as usize + 1, partition_size: APP0_SIZE })
    );
}

#[test]
fn restore_size_check() {
    assert!(!restore_size_mismatch(0x400000));
    assert!(restore_size_mismatch(10));
    assert!(restore_refusal().starts_with("Restore overwrites the ENTIRE flash"));
}
