//! Translation between raw reports and what they mean.
//!
//! A report from the host is 65 bytes:
//!
//! | byte | meaning                                                        |
//! |------|----------------------------------------------------------------|
//! | 0    | the Aura report id                                             |
//! | 1    | the kind of report                                             |
//! | 2    | set effect: channel; direct update: bit 7 apply, bits 0-6 channel |
//! | 3    | direct update: offset of the first LED                         |
//! | 4    | set effect: effect; direct update: number of LEDs              |
//! | 5..  | direct update: three bytes per LED, red, green, blue           |
//!
//! A report to the host is 64 bytes: the report id, the kind of answer, and
//! the answer itself, padded with zeros.

use crate::aura::colors_of;
use crate::aura::constants::AURA_FIRMWARE_VERSION_LEN;
use crate::aura::constants::AURA_HID_REPORT_ID;
use crate::aura::constants::AURA_INPUT_REPORT_SIZE;
use crate::aura::constants::AURA_LED_DATA_OFFSET;
use crate::aura::constants::AURA_MAX_DIRECT_LED_COUNT;
use crate::aura::constants::AURA_OUTPUT_REPORT_SIZE;
use crate::aura::AuraEffect;
use crate::aura::AuraInputReport;
use crate::aura::AuraInputReportType;
use crate::aura::AuraOutputReport;
use crate::aura::AuraOutputReportType;
use crate::aura::InvalidReportError;
use crate::aura::RGB8;
use crate::message::leds_from_array_len;
use crate::message::MessageContent;
use crate::message::RogTerminalMessage;
use crate::ready_queue::RogTerminalReadyData;
use vstd::prelude::*;

verus! {

/// What an accepted report asks for.
pub enum DecodedReport {
    /// An answer that is to be queued for the host.
    ReadyData(RogTerminalReadyData),
    /// A command that is to be kept for the LEDs.
    Message(RogTerminalMessage),
}

/// What a `DecodedReport` says, with the colors as a sequence.
pub enum DecodedContent {
    ReadyData(RogTerminalReadyData),
    Message(MessageContent),
}

impl View for DecodedReport {
    type V = DecodedContent;

    open spec fn view(&self) -> DecodedContent {
        match *self {
            DecodedReport::ReadyData(ready) => DecodedContent::ReadyData(ready),
            DecodedReport::Message(message) => DecodedContent::Message(message@),
        }
    }
}

/// Outcome of decoding, with the colors as a sequence.
pub open spec fn outcome_of(outcome: Result<DecodedReport, InvalidReportError>) -> Result<
    DecodedContent,
    InvalidReportError,
> {
    match outcome {
        Ok(decoded) => Ok(decoded@),
        Err(e) => Err(e),
    }
}

/// The number of LEDs that a direct update carries when it asks for
/// `requested`: no more than the protocol allows.
pub open spec fn clamped_led_count(requested: u8) -> int {
    if requested > AURA_MAX_DIRECT_LED_COUNT {
        AURA_MAX_DIRECT_LED_COUNT as int
    } else {
        requested as int
    }
}

/// The colors of a direct update: as many as the report asks for and the
/// protocol allows, read from byte 5 on.
pub open spec fn direct_led_colors(report: Seq<u8>) -> Seq<RGB8> {
    colors_of(
        report.subrange(
            AURA_LED_DATA_OFFSET as int,
            AURA_LED_DATA_OFFSET + 3 * clamped_led_count(report[4]),
        ),
    )
}

/// The color that a direct update gives to the LED at `index` of its run: the
/// three bytes at that place after the header.
pub open spec fn packed_color(report: Seq<u8>, index: int) -> RGB8 {
    RGB8 {
        r: report[AURA_LED_DATA_OFFSET + 3 * index],
        g: report[AURA_LED_DATA_OFFSET + 3 * index + 1],
        b: report[AURA_LED_DATA_OFFSET + 3 * index + 2],
    }
}

/// How many bytes of a report matter: the id alone where it is foreign, the
/// id and the kind for a query or an unknown kind, the header for an effect,
/// and for a direct update the header and the colors that it carries.
pub open spec fn bytes_read(report: Seq<u8>) -> int {
    if report[0] != AURA_HID_REPORT_ID {
        1
    } else {
        match AuraOutputReportType::from_code(report[1]) {
            Some(AuraOutputReportType::SetEffect) => AURA_LED_DATA_OFFSET as int,
            Some(AuraOutputReportType::SetDirectLeds) => AURA_LED_DATA_OFFSET + 3
                * clamped_led_count(report[4]),
            _ => 2,
        }
    }
}

/// What a report from the host means. In a direct update the top bit of
/// byte 2 is the apply flag and the seven bits below it are the channel.
pub open spec fn decoded(report: Seq<u8>) -> Result<DecodedContent, InvalidReportError> {
    if report[0] != AURA_HID_REPORT_ID {
        Err(InvalidReportError::InvalidReportId)
    } else {
        match AuraOutputReportType::from_code(report[1]) {
            None => Err(InvalidReportError::InvalidReportType),
            Some(AuraOutputReportType::FirmwareVersionRequest) => Ok(
                DecodedContent::ReadyData(RogTerminalReadyData::FirmwareVersion),
            ),
            Some(AuraOutputReportType::ConfigTableRequest) => Ok(
                DecodedContent::ReadyData(RogTerminalReadyData::ConfigTable),
            ),
            Some(AuraOutputReportType::SetEffect) => match AuraEffect::from_code(report[4]) {
                None => Err(InvalidReportError::InvalidEffect),
                Some(effect) => Ok(
                    DecodedContent::Message(
                        MessageContent::SetEffect { channel: report[2], effect },
                    ),
                ),
            },
            Some(AuraOutputReportType::SetDirectLeds) => Ok(
                DecodedContent::Message(
                    MessageContent::UpdateLeds {
                        channel: (report[2] % 128) as u8,
                        offset: report[3],
                        apply: report[2] >= 128,
                        led_data: direct_led_colors(report),
                    },
                ),
            ),
        }
    }
}

/// The LED count that a direct update asks for, where it is over the limit
/// and the update therefore carries fewer colors than it asks for.
pub open spec fn oversized(report: Seq<u8>) -> Option<u8> {
    if decoded(report) matches Ok(DecodedContent::Message(MessageContent::UpdateLeds { .. }))
        && report[4] > AURA_MAX_DIRECT_LED_COUNT {
        Some(report[4])
    } else {
        None
    }
}

/// Decodes a report from the host.
pub fn decode_report(report: &AuraOutputReport) -> (outcome: Result<
    DecodedReport,
    InvalidReportError,
>)
    ensures
        outcome_of(outcome) == decoded(report@),
{
    if report[0] != AURA_HID_REPORT_ID {
        return Err(InvalidReportError::InvalidReportId);
    }
    let report_type = match AuraOutputReportType::try_from(report[1]) {
        Ok(report_type) => report_type,
        Err(_) => {
            return Err(InvalidReportError::InvalidReportType);
        },
    };
    match report_type {
        AuraOutputReportType::FirmwareVersionRequest => Ok(
            DecodedReport::ReadyData(RogTerminalReadyData::FirmwareVersion),
        ),
        AuraOutputReportType::ConfigTableRequest => Ok(
            DecodedReport::ReadyData(RogTerminalReadyData::ConfigTable),
        ),
        AuraOutputReportType::SetEffect => {
            let channel = report[2];
            match AuraEffect::try_from(report[4]) {
                Ok(effect) => Ok(
                    DecodedReport::Message(RogTerminalMessage::SetEffect { channel, effect }),
                ),
                Err(_) => Err(InvalidReportError::InvalidEffect),
            }
        },
        AuraOutputReportType::SetDirectLeds => {
            let flags = report[2];
            let apply = (flags & 0x80) > 0;
            let channel = flags & 0x7f;
            assert(((flags & 0x80) > 0) == (flags >= 128) && flags & 0x7f == flags % 128)
                by (bit_vector);
            let offset = report[3];
            let mut num_leds = report[4];
            if num_leds > AURA_MAX_DIRECT_LED_COUNT {
                num_leds = AURA_MAX_DIRECT_LED_COUNT;
            }
            let count: usize = num_leds as usize;
            let mut led_data = [RGB8 { r: 0, g: 0, b: 0 }; 20];
            let mut i: usize = 0;
            while i < count
                invariant
                    i <= count <= AURA_MAX_DIRECT_LED_COUNT,
                    forall|k: int| 0 <= k < i ==> led_data@[k] == packed_color(report@, k),
                decreases count - i,
            {
                let at: usize = AURA_LED_DATA_OFFSET + 3 * i;
                led_data[i] = RGB8 { r: report[at], g: report[at + 1], b: report[at + 2] };
                i += 1;
            }
            assert(led_data@.take(count as int) =~= direct_led_colors(report@));
            Ok(
                DecodedReport::Message(
                    RogTerminalMessage::UpdateLeds {
                        channel,
                        offset,
                        apply,
                        led_data: leds_from_array_len(led_data, count),
                    },
                ),
            )
        },
    }
}

/// Tells whether a report is a direct update that asks for more LEDs than
/// the protocol allows, and if so for how many. Such a report is accepted
/// and cut to the limit; this is for whoever keeps a record of it.
pub fn oversized_led_count(report: &AuraOutputReport) -> (requested: Option<u8>)
    ensures
        requested == oversized(report@),
{
    let is_direct_update = report[0] == AURA_HID_REPORT_ID && report[1] == u8::from(
        AuraOutputReportType::SetDirectLeds,
    );
    if is_direct_update && report[4] > AURA_MAX_DIRECT_LED_COUNT {
        Some(report[4])
    } else {
        None
    }
}

/// The firmware version that the engine reports unless it is given another.
pub const ROG_AURA_DEFAULT_FIRMWARE_VERSION: &'static [u8; 15] = &[
    0x41, 0x55, 0x54, 0x41, 0x30, 0x2d, 0x53, 0x30, 0x37, 0x32, 0x2d, 0x30, 0x31, 0x30, 0x31,
];

/// The answer to a configuration table request, byte for byte. Hosts look at
/// the two header bytes; the rest repeats what the hardware sends.
pub const CONFIG_TABLE_RESPONSE: [u8; 64] = [
    0xec, 0x30, 0x00, 0x00, 0x1f, 0xff, 0x04, 0x1f, 0x01, 0x01,
    0x00, 0x5a, 0x01, 0x64, 0x01, 0x01,
    0x00, 0x5a, 0x01, 0x64, 0x01, 0x01,
    0x00, 0x5a, 0x01, 0x64, 0x01, 0x01,
    0x00, 0x5a, 0x01, 0x64, 0x01, 0x03,
    0x00, 0x00, 0x00, 0x00, 0x00, 0x00, 0x00, 0x00, 0x00, 0x00,
    0x00, 0x00, 0x00, 0x00, 0x00, 0x00, 0x00, 0x00, 0x00, 0x00,
    0x00, 0x00, 0x00, 0x00, 0x00, 0x00, 0x00, 0x00, 0x00, 0x00,
];

/// The descriptor of one channel in the configuration table. Its second byte
/// is the number of LEDs on the channel.
pub open spec fn channel_descriptor(last: u8) -> Seq<u8> {
    seq![0x00u8, 0x5a, 0x01, 0x64, 0x01, last]
}

/// The configuration table report: report id, answer code, eight bytes of
/// device data of which the fifth is the number of channels, one descriptor
/// for each of the four channels, and zeros up to 64 bytes.
pub open spec fn config_table_report() -> Seq<u8> {
    seq![AURA_HID_REPORT_ID, AuraInputReportType::ConfigTableRequestOk.code()] + seq![
        0x00u8,
        0x00,
        0x1f,
        0xff,
        0x04,
        0x1f,
        0x01,
        0x01,
    ] + channel_descriptor(0x01) + channel_descriptor(0x01) + channel_descriptor(0x01)
        + channel_descriptor(0x03) + Seq::new(30, |i: int| 0u8)
}

/// The firmware version report: report id, answer code, the fifteen bytes of
/// the version string, and zeros up to 64 bytes.
pub open spec fn firmware_version_report(firmware_version: Seq<u8>) -> Seq<u8> {
    Seq::new(
        AURA_INPUT_REPORT_SIZE as nat,
        |i: int|
            if i == 0 {
                AURA_HID_REPORT_ID
            } else if i == 1 {
                AuraInputReportType::FirmwareVersionRequestOk.code()
            } else if i < 2 + AURA_FIRMWARE_VERSION_LEN {
                firmware_version[i - 2]
            } else {
                0u8
            },
    )
}

/// The report that answers `ready` on a device with the given firmware
/// version.
pub open spec fn encoded(ready: RogTerminalReadyData, firmware_version: Seq<u8>) -> Seq<u8> {
    match ready {
        RogTerminalReadyData::FirmwareVersion => firmware_version_report(firmware_version),
        RogTerminalReadyData::ConfigTable => config_table_report(),
    }
}

/// Builds the report that answers `ready`.
pub fn encode_ready_data(ready: RogTerminalReadyData, firmware_version: &[u8; 15]) -> (report:
    AuraInputReport)
    ensures
        report@ == encoded(ready, firmware_version@),
{
    match ready {
        RogTerminalReadyData::FirmwareVersion => {
            let mut report: AuraInputReport = [0u8; 64];
            report[0] = AURA_HID_REPORT_ID;
            report[1] = u8::from(AuraInputReportType::FirmwareVersionRequestOk);
            let mut i: usize = 0;
            while i < 15
                invariant
                    i <= 15,
                    report@[0] == AURA_HID_REPORT_ID,
                    report@[1] == AuraInputReportType::FirmwareVersionRequestOk.code(),
                    forall|k: int| 2 <= k < 2 + i ==> report@[k] == firmware_version@[k - 2],
                    forall|k: int| 2 + i <= k < 64 ==> report@[k] == 0u8,
                decreases 15 - i,
            {
                report[2 + i] = firmware_version[i];
                i += 1;
            }
            report
        },
        RogTerminalReadyData::ConfigTable => {
            let report = CONFIG_TABLE_RESPONSE;
            report
        },
    }
}

/// A report whose first byte is not the Aura report id yields neither a
/// command nor an answer: it is rejected for its id, whatever else it holds.
pub proof fn lemma_foreign_report_id_is_rejected(report: Seq<u8>)
    requires
        report[0] != AURA_HID_REPORT_ID,
    ensures
        decoded(report) == Err::<DecodedContent, _>(InvalidReportError::InvalidReportId),
{
}

/// A full direct update fills the report to its last byte: the header and
/// twenty colors are exactly the size of a report from the host.
pub proof fn lemma_full_update_fits_report_exactly()
    ensures
        AURA_LED_DATA_OFFSET + 3 * AURA_MAX_DIRECT_LED_COUNT == AURA_OUTPUT_REPORT_SIZE,
{
}

/// Decoding looks at no byte beyond those that matter: two reports that
/// agree on the bytes that matter in the first mean the same.
pub proof fn lemma_decoding_reads_no_further(first: Seq<u8>, second: Seq<u8>)
    requires
        first.len() == AURA_OUTPUT_REPORT_SIZE,
        second.len() == AURA_OUTPUT_REPORT_SIZE,
        forall|i: int| 0 <= i < bytes_read(first) ==> first[i] == second[i],
    ensures
        bytes_read(first) <= AURA_OUTPUT_REPORT_SIZE,
        decoded(first) == decoded(second),
{
    if first[0] == AURA_HID_REPORT_ID && AuraOutputReportType::from_code(first[1]) == Some(
        AuraOutputReportType::SetDirectLeds,
    ) {
        assert(first[4] == second[4]);
        assert(direct_led_colors(first) =~= direct_led_colors(second));
    }
}

/// A direct update that asks for more than twenty LEDs is not rejected: it
/// carries exactly twenty colors, the first twenty that the report packs.
pub proof fn lemma_oversized_led_count_keeps_first_twenty(report: Seq<u8>)
    requires
        report.len() == AURA_OUTPUT_REPORT_SIZE,
        report[0] == AURA_HID_REPORT_ID,
        report[1] == AuraOutputReportType::SetDirectLeds.code(),
        report[4] > AURA_MAX_DIRECT_LED_COUNT,
    ensures
        decoded(report) matches Ok(
            DecodedContent::Message(MessageContent::UpdateLeds { led_data, .. }),
        ) && led_data.len() == AURA_MAX_DIRECT_LED_COUNT && forall|i: int|
            0 <= i < AURA_MAX_DIRECT_LED_COUNT ==> led_data[i] == packed_color(report, i),
{
}

/// A direct update that asks for at most twenty LEDs carries as many colors
/// as it asks for: those that the report packs from byte 5 on, in order.
pub proof fn lemma_led_count_within_limit_keeps_all(report: Seq<u8>)
    requires
        report.len() == AURA_OUTPUT_REPORT_SIZE,
        report[0] == AURA_HID_REPORT_ID,
        report[1] == AuraOutputReportType::SetDirectLeds.code(),
        report[4] <= AURA_MAX_DIRECT_LED_COUNT,
    ensures
        decoded(report) matches Ok(
            DecodedContent::Message(MessageContent::UpdateLeds { led_data, .. }),
        ) && led_data.len() == report[4] && forall|i: int|
            0 <= i < report[4] ==> led_data[i] == packed_color(report, i),
{
}

/// Encoding has one outcome: two reports that answer the same request on the
/// same firmware version are equal byte for byte.
pub proof fn lemma_encoding_is_repeatable(
    first: AuraInputReport,
    second: AuraInputReport,
    ready: RogTerminalReadyData,
    firmware_version: Seq<u8>,
)
    requires
        first@ == encoded(ready, firmware_version),
        second@ == encoded(ready, firmware_version),
    ensures
        first == second,
{
}

} // verus!
