//! The vocabulary of the Aura protocol: colors, effects and report types.

use vstd::prelude::*;
use vstd::std_specs::convert::FromSpecImpl;
use vstd::std_specs::convert::TryFromSpecImpl;

pub mod constants;

verus! {

/// A report sent by the host.
pub type AuraOutputReport = [u8; 65];

/// A report sent to the host.
pub type AuraInputReport = [u8; 64];

/// One LED color.
#[derive(Copy, Clone, Debug, PartialEq, Eq, Structural)]
pub struct RGB8 {
    pub r: u8,
    pub g: u8,
    pub b: u8,
}

impl Default for RGB8 {
    fn default() -> (c: Self)
        ensures
            c == (RGB8 { r: 0, g: 0, b: 0 }),
    {
        RGB8 { r: 0, g: 0, b: 0 }
    }
}

/// The colors packed in `bytes`, three bytes each in the order red, green,
/// blue. Trailing bytes that do not fill a color are left out.
pub open spec fn colors_of(bytes: Seq<u8>) -> Seq<RGB8> {
    Seq::new(
        (bytes.len() / 3) as nat,
        |i: int| RGB8 { r: bytes[3 * i], g: bytes[3 * i + 1], b: bytes[3 * i + 2] },
    )
}

/// Reads a run of packed colors out of raw bytes.
pub fn rgb_from_raw_slice(slice: &[u8]) -> (colors: Vec<RGB8>)
    ensures
        colors@ == colors_of(slice@),
{
    let count: usize = slice.len() / 3;
    let mut colors: Vec<RGB8> = Vec::with_capacity(count);
    let mut i: usize = 0;
    while i < count
        invariant
            count == slice@.len() / 3,
            3 * count <= slice@.len() <= usize::MAX,
            i <= count,
            colors@.len() == i,
            forall|k: int| 0 <= k < i ==> colors@[k] == colors_of(slice@)[k],
        decreases count - i,
    {
        let c = RGB8 { r: slice[3 * i], g: slice[3 * i + 1], b: slice[3 * i + 2] };
        colors.push(c);
        i += 1;
    }
    colors
}

/// The preset lighting effects that the host can select.
#[derive(Copy, Clone, Debug, PartialEq, Eq, Structural)]
pub enum AuraEffect {
    Off,
    Static,
    Breathing,
    Flashing,
    SpectrumCycle,
    Rainbow,
    SpectrumCycleBreathing,
    ChaseFade,
    SpectrumCycleChaseFade,
    Chase,
    SpectrumCycleChase,
    SpectrumCycleWave,
    ChaseRainbowPulse,
    RandomFlicker,
    Music,
    Direct,
}

impl AuraEffect {
    /// The byte that stands for this effect on the wire.
    pub open spec fn code(self) -> u8 {
        match self {
            AuraEffect::Off => 0,
            AuraEffect::Static => 1,
            AuraEffect::Breathing => 2,
            AuraEffect::Flashing => 3,
            AuraEffect::SpectrumCycle => 4,
            AuraEffect::Rainbow => 5,
            AuraEffect::SpectrumCycleBreathing => 6,
            AuraEffect::ChaseFade => 7,
            AuraEffect::SpectrumCycleChaseFade => 8,
            AuraEffect::Chase => 9,
            AuraEffect::SpectrumCycleChase => 10,
            AuraEffect::SpectrumCycleWave => 11,
            AuraEffect::ChaseRainbowPulse => 12,
            AuraEffect::RandomFlicker => 13,
            AuraEffect::Music => 14,
            AuraEffect::Direct => 0xff,
        }
    }

    /// The effect that `code` stands for, if it stands for one.
    pub open spec fn from_code(code: u8) -> Option<AuraEffect> {
        match code {
            0 => Some(AuraEffect::Off),
            1 => Some(AuraEffect::Static),
            2 => Some(AuraEffect::Breathing),
            3 => Some(AuraEffect::Flashing),
            4 => Some(AuraEffect::SpectrumCycle),
            5 => Some(AuraEffect::Rainbow),
            6 => Some(AuraEffect::SpectrumCycleBreathing),
            7 => Some(AuraEffect::ChaseFade),
            8 => Some(AuraEffect::SpectrumCycleChaseFade),
            9 => Some(AuraEffect::Chase),
            10 => Some(AuraEffect::SpectrumCycleChase),
            11 => Some(AuraEffect::SpectrumCycleWave),
            12 => Some(AuraEffect::ChaseRainbowPulse),
            13 => Some(AuraEffect::RandomFlicker),
            14 => Some(AuraEffect::Music),
            0xff => Some(AuraEffect::Direct),
            _ => None,
        }
    }

    /// Every effect is found again from its byte.
    pub proof fn lemma_code_round_trip(self)
        ensures
            AuraEffect::from_code(self.code()) == Some(self),
    {
    }

    /// A byte stands for at most one effect: the one whose byte it is.
    pub proof fn lemma_from_code_is_inverse(code: u8)
        ensures
            AuraEffect::from_code(code) matches Some(found) ==> found.code() == code,
    {
    }
}

impl TryFrom<u8> for AuraEffect {
    type Error = u8;

    /// Reads an effect from its byte; a byte that stands for none comes back as
    /// the error.
    fn try_from(code: u8) -> (found: Result<Self, u8>) {
        match code {
            0 => Ok(AuraEffect::Off),
            1 => Ok(AuraEffect::Static),
            2 => Ok(AuraEffect::Breathing),
            3 => Ok(AuraEffect::Flashing),
            4 => Ok(AuraEffect::SpectrumCycle),
            5 => Ok(AuraEffect::Rainbow),
            6 => Ok(AuraEffect::SpectrumCycleBreathing),
            7 => Ok(AuraEffect::ChaseFade),
            8 => Ok(AuraEffect::SpectrumCycleChaseFade),
            9 => Ok(AuraEffect::Chase),
            10 => Ok(AuraEffect::SpectrumCycleChase),
            11 => Ok(AuraEffect::SpectrumCycleWave),
            12 => Ok(AuraEffect::ChaseRainbowPulse),
            13 => Ok(AuraEffect::RandomFlicker),
            14 => Ok(AuraEffect::Music),
            0xff => Ok(AuraEffect::Direct),
            _ => Err(code),
        }
    }
}

impl TryFromSpecImpl<u8> for AuraEffect {
    open spec fn obeys_try_from_spec() -> bool {
        true
    }

    open spec fn try_from_spec(code: u8) -> Result<Self, u8> {
        match AuraEffect::from_code(code) {
            Some(found) => Ok(found),
            None => Err(code),
        }
    }
}

impl From<AuraEffect> for u8 {
    /// The byte that stands for `value` on the wire.
    fn from(value: AuraEffect) -> (code: u8) {
        match value {
            AuraEffect::Off => 0,
            AuraEffect::Static => 1,
            AuraEffect::Breathing => 2,
            AuraEffect::Flashing => 3,
            AuraEffect::SpectrumCycle => 4,
            AuraEffect::Rainbow => 5,
            AuraEffect::SpectrumCycleBreathing => 6,
            AuraEffect::ChaseFade => 7,
            AuraEffect::SpectrumCycleChaseFade => 8,
            AuraEffect::Chase => 9,
            AuraEffect::SpectrumCycleChase => 10,
            AuraEffect::SpectrumCycleWave => 11,
            AuraEffect::ChaseRainbowPulse => 12,
            AuraEffect::RandomFlicker => 13,
            AuraEffect::Music => 14,
            AuraEffect::Direct => 0xff,
        }
    }
}

impl FromSpecImpl<AuraEffect> for u8 {
    open spec fn obeys_from_spec() -> bool {
        true
    }

    open spec fn from_spec(value: AuraEffect) -> u8 {
        value.code()
    }
}

/// The kinds of report that the host can send to the device.
#[derive(Copy, Clone, Debug, PartialEq, Eq, Structural)]
pub enum AuraOutputReportType {
    /// The host asks for the firmware version of the device.
    FirmwareVersionRequest,
    /// The host asks for the configuration table of the device.
    ConfigTableRequest,
    /// The host sets a preset effect on a channel.
    SetEffect,
    /// The host sets LEDs to given colors.
    SetDirectLeds,
}

impl AuraOutputReportType {
    /// The byte that stands for this report type on the wire.
    pub open spec fn code(self) -> u8 {
        match self {
            AuraOutputReportType::FirmwareVersionRequest => 0x82,
            AuraOutputReportType::ConfigTableRequest => 0xb0,
            AuraOutputReportType::SetEffect => 0x3b,
            AuraOutputReportType::SetDirectLeds => 0x40,
        }
    }

    /// The report type that `code` stands for, if it stands for one.
    pub open spec fn from_code(code: u8) -> Option<AuraOutputReportType> {
        match code {
            0x82 => Some(AuraOutputReportType::FirmwareVersionRequest),
            0xb0 => Some(AuraOutputReportType::ConfigTableRequest),
            0x3b => Some(AuraOutputReportType::SetEffect),
            0x40 => Some(AuraOutputReportType::SetDirectLeds),
            _ => None,
        }
    }

    /// Every report type is found again from its byte.
    pub proof fn lemma_code_round_trip(self)
        ensures
            AuraOutputReportType::from_code(self.code()) == Some(self),
    {
    }

    /// A byte stands for at most one report type: the one whose byte it is.
    pub proof fn lemma_from_code_is_inverse(code: u8)
        ensures
            AuraOutputReportType::from_code(code) matches Some(found) ==> found.code() == code,
    {
    }
}

impl TryFrom<u8> for AuraOutputReportType {
    type Error = u8;

    /// Reads a report type from its byte; a byte that stands for none comes back as
    /// the error.
    fn try_from(code: u8) -> (found: Result<Self, u8>) {
        match code {
            0x82 => Ok(AuraOutputReportType::FirmwareVersionRequest),
            0xb0 => Ok(AuraOutputReportType::ConfigTableRequest),
            0x3b => Ok(AuraOutputReportType::SetEffect),
            0x40 => Ok(AuraOutputReportType::SetDirectLeds),
            _ => Err(code),
        }
    }
}

impl TryFromSpecImpl<u8> for AuraOutputReportType {
    open spec fn obeys_try_from_spec() -> bool {
        true
    }

    open spec fn try_from_spec(code: u8) -> Result<Self, u8> {
        match AuraOutputReportType::from_code(code) {
            Some(found) => Ok(found),
            None => Err(code),
        }
    }
}

impl From<AuraOutputReportType> for u8 {
    /// The byte that stands for `value` on the wire.
    fn from(value: AuraOutputReportType) -> (code: u8) {
        match value {
            AuraOutputReportType::FirmwareVersionRequest => 0x82,
            AuraOutputReportType::ConfigTableRequest => 0xb0,
            AuraOutputReportType::SetEffect => 0x3b,
            AuraOutputReportType::SetDirectLeds => 0x40,
        }
    }
}

impl FromSpecImpl<AuraOutputReportType> for u8 {
    open spec fn obeys_from_spec() -> bool {
        true
    }

    open spec fn from_spec(value: AuraOutputReportType) -> u8 {
        value.code()
    }
}

/// The kinds of report that the device can send to the host.
#[derive(Copy, Clone, Debug, PartialEq, Eq, Structural)]
pub enum AuraInputReportType {
    /// Answers a firmware version request.
    FirmwareVersionRequestOk,
    /// Answers a configuration table request.
    ConfigTableRequestOk,
}

impl AuraInputReportType {
    /// The byte that stands for this report type on the wire.
    pub open spec fn code(self) -> u8 {
        match self {
            AuraInputReportType::FirmwareVersionRequestOk => 0x02,
            AuraInputReportType::ConfigTableRequestOk => 0x30,
        }
    }

    /// The report type that `code` stands for, if it stands for one.
    pub open spec fn from_code(code: u8) -> Option<AuraInputReportType> {
        match code {
            0x02 => Some(AuraInputReportType::FirmwareVersionRequestOk),
            0x30 => Some(AuraInputReportType::ConfigTableRequestOk),
            _ => None,
        }
    }

    /// Every report type is found again from its byte.
    pub proof fn lemma_code_round_trip(self)
        ensures
            AuraInputReportType::from_code(self.code()) == Some(self),
    {
    }

    /// A byte stands for at most one report type: the one whose byte it is.
    pub proof fn lemma_from_code_is_inverse(code: u8)
        ensures
            AuraInputReportType::from_code(code) matches Some(found) ==> found.code() == code,
    {
    }
}

impl TryFrom<u8> for AuraInputReportType {
    type Error = u8;

    /// Reads a report type from its byte; a byte that stands for none comes back as
    /// the error.
    fn try_from(code: u8) -> (found: Result<Self, u8>) {
        match code {
            0x02 => Ok(AuraInputReportType::FirmwareVersionRequestOk),
            0x30 => Ok(AuraInputReportType::ConfigTableRequestOk),
            _ => Err(code),
        }
    }
}

impl TryFromSpecImpl<u8> for AuraInputReportType {
    open spec fn obeys_try_from_spec() -> bool {
        true
    }

    open spec fn try_from_spec(code: u8) -> Result<Self, u8> {
        match AuraInputReportType::from_code(code) {
            Some(found) => Ok(found),
            None => Err(code),
        }
    }
}

impl From<AuraInputReportType> for u8 {
    /// The byte that stands for `value` on the wire.
    fn from(value: AuraInputReportType) -> (code: u8) {
        match value {
            AuraInputReportType::FirmwareVersionRequestOk => 0x02,
            AuraInputReportType::ConfigTableRequestOk => 0x30,
        }
    }
}

impl FromSpecImpl<AuraInputReportType> for u8 {
    open spec fn obeys_from_spec() -> bool {
        true
    }

    open spec fn from_spec(value: AuraInputReportType) -> u8 {
        value.code()
    }
}

/// Why a report from the host was dropped.
#[derive(Copy, Clone, Debug, PartialEq, Eq, Structural)]
pub enum InvalidReportError {
    /// The first byte is not the Aura report id.
    InvalidReportId,
    /// The second byte names no known kind of report.
    InvalidReportType,
    /// The report sets an effect and its effect byte names none.
    InvalidEffect,
}

} // verus!
