use vstd::prelude::*;

verus! {

/// Total flash size in bytes (4 MB)
pub const FLASH_SIZE: u32 = 0x400000;

/// App0 (ota_0) partition offset
pub const APP0_OFFSET: u32 = 0x10000;

/// App0 (ota_0) partition size (1.25 MB)
pub const APP0_SIZE: u32 = 0x140000;

/// OTA data partition offset
pub const OTADATA_OFFSET: u32 = 0xe000;

/// OTA data partition size
pub const OTADATA_SIZE: u32 = 0x2000;

/// Upload baud rate for flashing
pub const UPLOAD_BAUD: u32 = 460800;

/// Monitor baud rate for serial debug
pub const MONITOR_BAUD: u32 = 115200;

/// USB Vendor ID (Adafruit)
pub const USB_VID: u16 = 0x239A;

/// The first of the USB product IDs that a NanoD reports.
pub const USB_PID_PRIMARY: u16 = 0x811B;

/// ESP32 image header magic byte
pub const ESP_IMAGE_MAGIC: u8 = 0xE9;

/// ESP32-S3 chip ID
pub const ESP32_S3_CHIP_ID: u16 = 0x0009;

/// The USB product IDs for NanoD, in order of preference.
pub open spec fn nanod_pids() -> Seq<u16> {
    seq![0x811Bu16, 0x011Bu16, 0x811Cu16]
}

/// The USB product IDs for NanoD.
pub fn usb_pids() -> (pids: [u16; 3])
    ensures
        pids@ == nanod_pids(),
{
    let pids = [0x811Bu16, 0x011Bu16, 0x811Cu16];
    assert(pids@ =~= nanod_pids());
    pids
}

/// Whether a USB device with this vendor/product ID pair is a NanoD.
pub fn is_nanod_usb_id(vid: u16, pid: u16) -> (b: bool)
    ensures
        b == (vid == USB_VID && nanod_pids().contains(pid)),
{
    let pids = usb_pids();
    let mut found = false;
    let mut i: usize = 0;
    while i < 3
        invariant
            0 <= i <= 3,
            pids@ == nanod_pids(),
            found == (exists|j: int| 0 <= j < i && pids@[j] == pid),
        decreases 3 - i,
    {
        if pids[i] == pid {
            found = true;
        }
        i = i + 1;
    }
    proof {
        if found {
            let j = choose|j: int| 0 <= j < 3 && pids@[j] == pid;
            assert(nanod_pids()[j] == pid);
        }
        if nanod_pids().contains(pid) {
            let j = choose|j: int| 0 <= j < 3 && nanod_pids()[j] == pid;
            assert(pids@[j] == pid);
        }
    }
    vid == USB_VID && found
}

} // verus!
