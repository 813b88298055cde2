//! Fixed numbers of the Aura HID protocol.

use vstd::prelude::*;

verus! {

/// The HID report id that every Aura report starts with.
pub const AURA_HID_REPORT_ID: u8 = 0xec;

/// The most LEDs that a single direct LED update report can carry.
pub const AURA_MAX_DIRECT_LED_COUNT: u8 = 20;

/// The length of an Aura firmware version string.
pub const AURA_FIRMWARE_VERSION_LEN: u8 = 15;

/// Size of a report sent by the host: header of five bytes, then room for
/// exactly `AURA_MAX_DIRECT_LED_COUNT` colors of three bytes each.
pub const AURA_OUTPUT_REPORT_SIZE: usize = 65;

/// Size of a report sent to the host. The hardware sends 65 bytes; full-speed
/// USB stacks cap a transfer at 64, so the emulation sends 64.
pub const AURA_INPUT_REPORT_SIZE: usize = 64;

/// Offset of the first color byte in a direct LED update report.
pub const AURA_LED_DATA_OFFSET: usize = 5;

} // verus!
