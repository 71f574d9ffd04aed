//! The full table of request and response command bytes of the protocol.
//!
//! Each request variant names the byte it is sent with, and each response
//! byte the printer may send decodes to exactly one variant; bytes outside
//! the table are kept verbatim in [`ResponseCommandId::Other`].

use vstd::prelude::*;

verus! {

/// Request command IDs (client -> printer).
///
/// This is the protocol's whole request table (an `Invalid` marker, which
/// isn't representable as a `u8`, is left out). Only a handful of these are currently used elsewhere in this crate (see
/// `NiimbotPacket`'s constructors); the rest are
/// provided so callers can build/recognize other request types without
/// having to fall back to raw bytes.
#[derive(Debug, Clone, Copy, PartialEq, Eq, Structural)]
pub enum RequestCommandId {
    /// Entire packet should be prefixed with `0x03` on the wire.
    Connect,
    CancelPrint,
    CalibrateHeight,
    Heartbeat,
    LabelPositioningCalibration,
    PageEnd,
    PrinterLog,
    PageStart,
    PrintBitmapRow,
    /// Sent instead of `PrintBitmapRow` if black pixels < 6.
    PrintBitmapRowIndexed,
    PrintClear,
    PrintEmptyRow,
    PrintEnd,
    /// Request general printer parameters (see
    /// `NiimbotPacket::printer_info`).
    PrinterInfo,
    PrinterConfig,
    PrinterStatusData,
    PrinterReset,
    PrintQuantity,
    PrintStart,
    PrintStatus,
    RfidInfo,
    RfidInfo2,
    RfidSuccessTimes,
    SetAutoShutdownTime,
    SetDensity,
    SetLabelType,
    /// 2, 4 or 6 bytes.
    SetPageSize,
    SoundSettings,
    /// Some info request (niimbot app); `0x01` long, `0x02` short.
    AntiFake,
    WriteRFID,
    PrintTestPage,
    StartFirmwareUpgrade,
    FirmwareCrc,
    FirmwareCommit,
    FirmwareChunk,
    FirmwareNoMoreChunks,
    PrinterCheckLine,
    GetCurrentTimeFormat,
    PrinterConfig2,
    GetKeyFunction,
    GetPrintQuality,
    GetPrinterConfigurationWifi,
}

impl RequestCommandId {
    /// The byte a request is sent with.
    pub open spec fn wire_byte(self) -> u8 {
        match self {
            RequestCommandId::Connect => 0xC1,
            RequestCommandId::CancelPrint => 0xDA,
            RequestCommandId::CalibrateHeight => 0x59,
            RequestCommandId::Heartbeat => 0xDC,
            RequestCommandId::LabelPositioningCalibration => 0x8E,
            RequestCommandId::PageEnd => 0xE3,
            RequestCommandId::PrinterLog => 0x05,
            RequestCommandId::PageStart => 0x03,
            RequestCommandId::PrintBitmapRow => 0x85,
            RequestCommandId::PrintBitmapRowIndexed => 0x83,
            RequestCommandId::PrintClear => 0x20,
            RequestCommandId::PrintEmptyRow => 0x84,
            RequestCommandId::PrintEnd => 0xF3,
            RequestCommandId::PrinterInfo => 0x40,
            RequestCommandId::PrinterConfig => 0xAF,
            RequestCommandId::PrinterStatusData => 0xA5,
            RequestCommandId::PrinterReset => 0x28,
            RequestCommandId::PrintQuantity => 0x15,
            RequestCommandId::PrintStart => 0x01,
            RequestCommandId::PrintStatus => 0xA3,
            RequestCommandId::RfidInfo => 0x1A,
            RequestCommandId::RfidInfo2 => 0x1C,
            RequestCommandId::RfidSuccessTimes => 0x54,
            RequestCommandId::SetAutoShutdownTime => 0x27,
            RequestCommandId::SetDensity => 0x21,
            RequestCommandId::SetLabelType => 0x23,
            RequestCommandId::SetPageSize => 0x13,
            RequestCommandId::SoundSettings => 0x58,
            RequestCommandId::AntiFake => 0x0B,
            RequestCommandId::WriteRFID => 0x70,
            RequestCommandId::PrintTestPage => 0x5A,
            RequestCommandId::StartFirmwareUpgrade => 0xF5,
            RequestCommandId::FirmwareCrc => 0x91,
            RequestCommandId::FirmwareCommit => 0x92,
            RequestCommandId::FirmwareChunk => 0x9B,
            RequestCommandId::FirmwareNoMoreChunks => 0x9C,
            RequestCommandId::PrinterCheckLine => 0x86,
            RequestCommandId::GetCurrentTimeFormat => 0x12,
            RequestCommandId::PrinterConfig2 => 0x07,
            RequestCommandId::GetKeyFunction => 0x09,
            RequestCommandId::GetPrintQuality => 0x0D,
            RequestCommandId::GetPrinterConfigurationWifi => 0xA2,
        }
    }

    /// The request sent with byte `b`, if any.
    pub open spec fn from_wire_byte(b: u8) -> Option<RequestCommandId> {
        if b == 0xC1 {
            Some(RequestCommandId::Connect)
        } else if b == 0xDA {
            Some(RequestCommandId::CancelPrint)
        } else if b == 0x59 {
            Some(RequestCommandId::CalibrateHeight)
        } else if b == 0xDC {
            Some(RequestCommandId::Heartbeat)
        } else if b == 0x8E {
            Some(RequestCommandId::LabelPositioningCalibration)
        } else if b == 0xE3 {
            Some(RequestCommandId::PageEnd)
        } else if b == 0x05 {
            Some(RequestCommandId::PrinterLog)
        } else if b == 0x03 {
            Some(RequestCommandId::PageStart)
        } else if b == 0x85 {
            Some(RequestCommandId::PrintBitmapRow)
        } else if b == 0x83 {
            Some(RequestCommandId::PrintBitmapRowIndexed)
        } else if b == 0x20 {
            Some(RequestCommandId::PrintClear)
        } else if b == 0x84 {
            Some(RequestCommandId::PrintEmptyRow)
        } else if b == 0xF3 {
            Some(RequestCommandId::PrintEnd)
        } else if b == 0x40 {
            Some(RequestCommandId::PrinterInfo)
        } else if b == 0xAF {
            Some(RequestCommandId::PrinterConfig)
        } else if b == 0xA5 {
            Some(RequestCommandId::PrinterStatusData)
        } else if b == 0x28 {
            Some(RequestCommandId::PrinterReset)
        } else if b == 0x15 {
            Some(RequestCommandId::PrintQuantity)
        } else if b == 0x01 {
            Some(RequestCommandId::PrintStart)
        } else if b == 0xA3 {
            Some(RequestCommandId::PrintStatus)
        } else if b == 0x1A {
            Some(RequestCommandId::RfidInfo)
        } else if b == 0x1C {
            Some(RequestCommandId::RfidInfo2)
        } else if b == 0x54 {
            Some(RequestCommandId::RfidSuccessTimes)
        } else if b == 0x27 {
            Some(RequestCommandId::SetAutoShutdownTime)
        } else if b == 0x21 {
            Some(RequestCommandId::SetDensity)
        } else if b == 0x23 {
            Some(RequestCommandId::SetLabelType)
        } else if b == 0x13 {
            Some(RequestCommandId::SetPageSize)
        } else if b == 0x58 {
            Some(RequestCommandId::SoundSettings)
        } else if b == 0x0B {
            Some(RequestCommandId::AntiFake)
        } else if b == 0x70 {
            Some(RequestCommandId::WriteRFID)
        } else if b == 0x5A {
            Some(RequestCommandId::PrintTestPage)
        } else if b == 0xF5 {
            Some(RequestCommandId::StartFirmwareUpgrade)
        } else if b == 0x91 {
            Some(RequestCommandId::FirmwareCrc)
        } else if b == 0x92 {
            Some(RequestCommandId::FirmwareCommit)
        } else if b == 0x9B {
            Some(RequestCommandId::FirmwareChunk)
        } else if b == 0x9C {
            Some(RequestCommandId::FirmwareNoMoreChunks)
        } else if b == 0x86 {
            Some(RequestCommandId::PrinterCheckLine)
        } else if b == 0x12 {
            Some(RequestCommandId::GetCurrentTimeFormat)
        } else if b == 0x07 {
            Some(RequestCommandId::PrinterConfig2)
        } else if b == 0x09 {
            Some(RequestCommandId::GetKeyFunction)
        } else if b == 0x0D {
            Some(RequestCommandId::GetPrintQuality)
        } else if b == 0xA2 {
            Some(RequestCommandId::GetPrinterConfigurationWifi)
        } else {
            None
        }
    }
}

impl From<RequestCommandId> for u8 {
    fn from(id: RequestCommandId) -> (b: u8) {
        match id {
            RequestCommandId::Connect => 0xC1,
            RequestCommandId::CancelPrint => 0xDA,
            RequestCommandId::CalibrateHeight => 0x59,
            RequestCommandId::Heartbeat => 0xDC,
            RequestCommandId::LabelPositioningCalibration => 0x8E,
            RequestCommandId::PageEnd => 0xE3,
            RequestCommandId::PrinterLog => 0x05,
            RequestCommandId::PageStart => 0x03,
            RequestCommandId::PrintBitmapRow => 0x85,
            RequestCommandId::PrintBitmapRowIndexed => 0x83,
            RequestCommandId::PrintClear => 0x20,
            RequestCommandId::PrintEmptyRow => 0x84,
            RequestCommandId::PrintEnd => 0xF3,
            RequestCommandId::PrinterInfo => 0x40,
            RequestCommandId::PrinterConfig => 0xAF,
            RequestCommandId::PrinterStatusData => 0xA5,
            RequestCommandId::PrinterReset => 0x28,
            RequestCommandId::PrintQuantity => 0x15,
            RequestCommandId::PrintStart => 0x01,
            RequestCommandId::PrintStatus => 0xA3,
            RequestCommandId::RfidInfo => 0x1A,
            RequestCommandId::RfidInfo2 => 0x1C,
            RequestCommandId::RfidSuccessTimes => 0x54,
            RequestCommandId::SetAutoShutdownTime => 0x27,
            RequestCommandId::SetDensity => 0x21,
            RequestCommandId::SetLabelType => 0x23,
            RequestCommandId::SetPageSize => 0x13,
            RequestCommandId::SoundSettings => 0x58,
            RequestCommandId::AntiFake => 0x0B,
            RequestCommandId::WriteRFID => 0x70,
            RequestCommandId::PrintTestPage => 0x5A,
            RequestCommandId::StartFirmwareUpgrade => 0xF5,
            RequestCommandId::FirmwareCrc => 0x91,
            RequestCommandId::FirmwareCommit => 0x92,
            RequestCommandId::FirmwareChunk => 0x9B,
            RequestCommandId::FirmwareNoMoreChunks => 0x9C,
            RequestCommandId::PrinterCheckLine => 0x86,
            RequestCommandId::GetCurrentTimeFormat => 0x12,
            RequestCommandId::PrinterConfig2 => 0x07,
            RequestCommandId::GetKeyFunction => 0x09,
            RequestCommandId::GetPrintQuality => 0x0D,
            RequestCommandId::GetPrinterConfigurationWifi => 0xA2,
        }
    }
}

impl vstd::std_specs::convert::FromSpecImpl<RequestCommandId> for u8 {
    open spec fn obeys_from_spec() -> bool {
        true
    }

    open spec fn from_spec(id: RequestCommandId) -> u8 {
        id.wire_byte()
    }
}

/// No two requests share a byte: a request is recovered from the byte it
/// is sent with.
pub proof fn lemma_request_byte_identifies_request(id: RequestCommandId)
    ensures
        RequestCommandId::from_wire_byte(id.wire_byte()) == Some(id),
{
}

/// Two requests with the same byte are the same request.
pub proof fn lemma_request_bytes_distinct(a: RequestCommandId, b: RequestCommandId)
    requires
        a.wire_byte() == b.wire_byte(),
    ensures
        a == b,
{
    lemma_request_byte_identifies_request(a);
    lemma_request_byte_identifies_request(b);
}

/// Response command IDs (printer -> client).
///
/// This is the protocol's whole response table (an `Invalid` marker is left
/// out). Unrecognized command bytes are preserved via
/// [`ResponseCommandId::Other`] rather than being treated as an error, since
/// the printer may reply with commands this client doesn't otherwise need to
/// understand.
///
/// Note: [`Self::ProtocolVersion`] and [`Self::PrinterInfoChargeLevel`]
/// share the same wire byte (`0x4A` = `0x40` + the `BatteryChargeLevel` info
/// key `10`). The protocol itself only names this byte as the charge-level
/// reply; this crate additionally uses it (queried with key `10`) to read
/// back a protocol version number in the connect handshake, hence the second
/// name. Decoding the byte always yields [`Self::ProtocolVersion`]; there is
/// no separate decoded charge-level variant.
#[derive(Debug, Clone, Copy, PartialEq, Eq, Structural)]
pub enum ResponseCommandId {
    NotSupported,
    /// `0xC2` - reply to [`RequestCommandId::Connect`].
    Connect,
    CalibrateHeight,
    CancelPrint,
    AntiFake,
    /// `0xDD` - "advanced 1" heartbeat reply.
    HeartbeatAdvanced1,
    /// `0xDE` - "basic" heartbeat reply.
    HeartbeatBasic,
    /// `0xDF` - heartbeat reply of unknown/unspecified format.
    HeartbeatUnknown,
    /// `0xD9` - "advanced 2" heartbeat reply.
    HeartbeatAdvanced2,
    LabelPositioningCalibration,
    PageStart,
    PrintClear,
    /// Sent by some printers after [`RequestCommandId::PageEnd`] along with
    /// [`Self::PageEnd`].
    PrinterCheckLine,
    PrintEnd,
    /// `0x40` - printer info response (general parameters).
    PrinterInfo,
    PrinterConfig,
    PrinterLog,
    PrinterInfoAutoShutDownTime,
    PrinterInfoBluetoothAddress,
    PrinterInfoSpeed,
    PrinterInfoDensity,
    PrinterInfoLanguage,
    /// `0x4A` - printer protocol version response. Shares its wire byte
    /// with [`Self::PrinterInfoChargeLevel`]; see the enum-level doc.
    ProtocolVersion,
    /// `0x4A` - same wire byte as [`Self::ProtocolVersion`]; see the
    /// enum-level doc. Included so callers reading raw `PrinterInfoType`
    /// replies can refer to this response by its canonical protocol name.
    PrinterInfoChargeLevel,
    PrinterInfoHardWareVersion,
    PrinterInfoLabelType,
    PrinterInfoPrinterCode,
    PrinterInfoSerialNumber,
    PrinterInfoSoftWareVersion,
    PrinterInfoArea,
    PrinterStatusData,
    PrinterReset,
    PrintStatus,
    /// For example, received after [`RequestCommandId::SetPageSize`] when
    /// page print is not started.
    PrintError,
    PrintQuantity,
    PrintStart,
    RfidInfo,
    RfidInfo2,
    RfidSuccessTimes,
    SetAutoShutdownTime,
    SetDensity,
    SetLabelType,
    SetPageSize,
    SoundSettings,
    PageEnd,
    PrinterPageIndex,
    PrintTestPage,
    WriteRFID,
    StartFirmwareUpgrade,
    RequestFirmwareCrc,
    RequestFirmwareChunk,
    FirmwareCheckResult,
    FirmwareResult,
    /// Sent before [`Self::PrinterCheckLine`].
    ResetTimeout,
    GetCurrentTimeFormat,
    PrinterConfig2,
    GetKeyFunction,
    GetPrintQuality,
    GetPrinterConfigurationWifi,
    /// Any other command byte, preserved verbatim.
    Other(u8),
}

impl ResponseCommandId {
    /// The response that byte `b` decodes to.
    pub open spec fn from_wire_byte(b: u8) -> ResponseCommandId {
        if b == 0x00 {
            ResponseCommandId::NotSupported
        } else if b == 0xC2 {
            ResponseCommandId::Connect
        } else if b == 0x69 {
            ResponseCommandId::CalibrateHeight
        } else if b == 0xD0 {
            ResponseCommandId::CancelPrint
        } else if b == 0x0C {
            ResponseCommandId::AntiFake
        } else if b == 0xDD {
            ResponseCommandId::HeartbeatAdvanced1
        } else if b == 0xDE {
            ResponseCommandId::HeartbeatBasic
        } else if b == 0xDF {
            ResponseCommandId::HeartbeatUnknown
        } else if b == 0xD9 {
            ResponseCommandId::HeartbeatAdvanced2
        } else if b == 0x8F {
            ResponseCommandId::LabelPositioningCalibration
        } else if b == 0x04 {
            ResponseCommandId::PageStart
        } else if b == 0x30 {
            ResponseCommandId::PrintClear
        } else if b == 0xD3 {
            ResponseCommandId::PrinterCheckLine
        } else if b == 0xF4 {
            ResponseCommandId::PrintEnd
        } else if b == 0x40 {
            ResponseCommandId::PrinterInfo
        } else if b == 0xBF {
            ResponseCommandId::PrinterConfig
        } else if b == 0x06 {
            ResponseCommandId::PrinterLog
        } else if b == 0x47 {
            ResponseCommandId::PrinterInfoAutoShutDownTime
        } else if b == 0x4D {
            ResponseCommandId::PrinterInfoBluetoothAddress
        } else if b == 0x42 {
            ResponseCommandId::PrinterInfoSpeed
        } else if b == 0x41 {
            ResponseCommandId::PrinterInfoDensity
        } else if b == 0x46 {
            ResponseCommandId::PrinterInfoLanguage
        } else if b == 0x4A {
            ResponseCommandId::ProtocolVersion
        } else if b == 0x4C {
            ResponseCommandId::PrinterInfoHardWareVersion
        } else if b == 0x43 {
            ResponseCommandId::PrinterInfoLabelType
        } else if b == 0x48 {
            ResponseCommandId::PrinterInfoPrinterCode
        } else if b == 0x4B {
            ResponseCommandId::PrinterInfoSerialNumber
        } else if b == 0x49 {
            ResponseCommandId::PrinterInfoSoftWareVersion
        } else if b == 0x4F {
            ResponseCommandId::PrinterInfoArea
        } else if b == 0xB5 {
            ResponseCommandId::PrinterStatusData
        } else if b == 0x38 {
            ResponseCommandId::PrinterReset
        } else if b == 0xB3 {
            ResponseCommandId::PrintStatus
        } else if b == 0xDB {
            ResponseCommandId::PrintError
        } else if b == 0x16 {
            ResponseCommandId::PrintQuantity
        } else if b == 0x02 {
            ResponseCommandId::PrintStart
        } else if b == 0x1B {
            ResponseCommandId::RfidInfo
        } else if b == 0x1D {
            ResponseCommandId::RfidInfo2
        } else if b == 0x64 {
            ResponseCommandId::RfidSuccessTimes
        } else if b == 0x37 {
            ResponseCommandId::SetAutoShutdownTime
        } else if b == 0x31 {
            ResponseCommandId::SetDensity
        } else if b == 0x33 {
            ResponseCommandId::SetLabelType
        } else if b == 0x14 {
            ResponseCommandId::SetPageSize
        } else if b == 0x68 {
            ResponseCommandId::SoundSettings
        } else if b == 0xE4 {
            ResponseCommandId::PageEnd
        } else if b == 0xE0 {
            ResponseCommandId::PrinterPageIndex
        } else if b == 0x6A {
            ResponseCommandId::PrintTestPage
        } else if b == 0x71 {
            ResponseCommandId::WriteRFID
        } else if b == 0xF6 {
            ResponseCommandId::StartFirmwareUpgrade
        } else if b == 0x90 {
            ResponseCommandId::RequestFirmwareCrc
        } else if b == 0x9A {
            ResponseCommandId::RequestFirmwareChunk
        } else if b == 0x9D {
            ResponseCommandId::FirmwareCheckResult
        } else if b == 0x9E {
            ResponseCommandId::FirmwareResult
        } else if b == 0xC6 {
            ResponseCommandId::ResetTimeout
        } else if b == 0x11 {
            ResponseCommandId::GetCurrentTimeFormat
        } else if b == 0x08 {
            ResponseCommandId::PrinterConfig2
        } else if b == 0x0A {
            ResponseCommandId::GetKeyFunction
        } else if b == 0x0D {
            ResponseCommandId::GetPrintQuality
        } else if b == 0xB2 {
            ResponseCommandId::GetPrinterConfigurationWifi
        } else {
            ResponseCommandId::Other(b)
        }
    }

    /// The byte a response arrives on.
    pub open spec fn wire_byte(self) -> u8 {
        match self {
            ResponseCommandId::NotSupported => 0x00,
            ResponseCommandId::Connect => 0xC2,
            ResponseCommandId::CalibrateHeight => 0x69,
            ResponseCommandId::CancelPrint => 0xD0,
            ResponseCommandId::AntiFake => 0x0C,
            ResponseCommandId::HeartbeatAdvanced1 => 0xDD,
            ResponseCommandId::HeartbeatBasic => 0xDE,
            ResponseCommandId::HeartbeatUnknown => 0xDF,
            ResponseCommandId::HeartbeatAdvanced2 => 0xD9,
            ResponseCommandId::LabelPositioningCalibration => 0x8F,
            ResponseCommandId::PageStart => 0x04,
            ResponseCommandId::PrintClear => 0x30,
            ResponseCommandId::PrinterCheckLine => 0xD3,
            ResponseCommandId::PrintEnd => 0xF4,
            ResponseCommandId::PrinterInfo => 0x40,
            ResponseCommandId::PrinterConfig => 0xBF,
            ResponseCommandId::PrinterLog => 0x06,
            ResponseCommandId::PrinterInfoAutoShutDownTime => 0x47,
            ResponseCommandId::PrinterInfoBluetoothAddress => 0x4D,
            ResponseCommandId::PrinterInfoSpeed => 0x42,
            ResponseCommandId::PrinterInfoDensity => 0x41,
            ResponseCommandId::PrinterInfoLanguage => 0x46,
            ResponseCommandId::ProtocolVersion => 0x4A,
            ResponseCommandId::PrinterInfoChargeLevel => 0x4A,
            ResponseCommandId::PrinterInfoHardWareVersion => 0x4C,
            ResponseCommandId::PrinterInfoLabelType => 0x43,
            ResponseCommandId::PrinterInfoPrinterCode => 0x48,
            ResponseCommandId::PrinterInfoSerialNumber => 0x4B,
            ResponseCommandId::PrinterInfoSoftWareVersion => 0x49,
            ResponseCommandId::PrinterInfoArea => 0x4F,
            ResponseCommandId::PrinterStatusData => 0xB5,
            ResponseCommandId::PrinterReset => 0x38,
            ResponseCommandId::PrintStatus => 0xB3,
            ResponseCommandId::PrintError => 0xDB,
            ResponseCommandId::PrintQuantity => 0x16,
            ResponseCommandId::PrintStart => 0x02,
            ResponseCommandId::RfidInfo => 0x1B,
            ResponseCommandId::RfidInfo2 => 0x1D,
            ResponseCommandId::RfidSuccessTimes => 0x64,
            ResponseCommandId::SetAutoShutdownTime => 0x37,
            ResponseCommandId::SetDensity => 0x31,
            ResponseCommandId::SetLabelType => 0x33,
            ResponseCommandId::SetPageSize => 0x14,
            ResponseCommandId::SoundSettings => 0x68,
            ResponseCommandId::PageEnd => 0xE4,
            ResponseCommandId::PrinterPageIndex => 0xE0,
            ResponseCommandId::PrintTestPage => 0x6A,
            ResponseCommandId::WriteRFID => 0x71,
            ResponseCommandId::StartFirmwareUpgrade => 0xF6,
            ResponseCommandId::RequestFirmwareCrc => 0x90,
            ResponseCommandId::RequestFirmwareChunk => 0x9A,
            ResponseCommandId::FirmwareCheckResult => 0x9D,
            ResponseCommandId::FirmwareResult => 0x9E,
            ResponseCommandId::ResetTimeout => 0xC6,
            ResponseCommandId::GetCurrentTimeFormat => 0x11,
            ResponseCommandId::PrinterConfig2 => 0x08,
            ResponseCommandId::GetKeyFunction => 0x0A,
            ResponseCommandId::GetPrintQuality => 0x0D,
            ResponseCommandId::GetPrinterConfigurationWifi => 0xB2,
            ResponseCommandId::Other(b) => b,
        }
    }

    /// The heartbeat replies, whatever their format.
    pub open spec fn is_heartbeat(self) -> bool {
        ||| self is HeartbeatAdvanced1
        ||| self is HeartbeatBasic
        ||| self is HeartbeatUnknown
        ||| self is HeartbeatAdvanced2
    }

    /// True for any of the heartbeat reply variants, regardless of format.
    pub fn is_heartbeat_reply(self) -> (r: bool)
        ensures
            r == self.is_heartbeat(),
    {
        match self {
            ResponseCommandId::HeartbeatAdvanced1 | ResponseCommandId::HeartbeatBasic
            | ResponseCommandId::HeartbeatUnknown | ResponseCommandId::HeartbeatAdvanced2 => true,
            _ => false,
        }
    }
}

impl From<u8> for ResponseCommandId {
    fn from(byte: u8) -> (r: Self) {
        match byte {
            0x00 => ResponseCommandId::NotSupported,
            0xC2 => ResponseCommandId::Connect,
            0x69 => ResponseCommandId::CalibrateHeight,
            0xD0 => ResponseCommandId::CancelPrint,
            0x0C => ResponseCommandId::AntiFake,
            0xDD => ResponseCommandId::HeartbeatAdvanced1,
            0xDE => ResponseCommandId::HeartbeatBasic,
            0xDF => ResponseCommandId::HeartbeatUnknown,
            0xD9 => ResponseCommandId::HeartbeatAdvanced2,
            0x8F => ResponseCommandId::LabelPositioningCalibration,
            0x04 => ResponseCommandId::PageStart,
            0x30 => ResponseCommandId::PrintClear,
            0xD3 => ResponseCommandId::PrinterCheckLine,
            0xF4 => ResponseCommandId::PrintEnd,
            0x40 => ResponseCommandId::PrinterInfo,
            0xBF => ResponseCommandId::PrinterConfig,
            0x06 => ResponseCommandId::PrinterLog,
            0x47 => ResponseCommandId::PrinterInfoAutoShutDownTime,
            0x4D => ResponseCommandId::PrinterInfoBluetoothAddress,
            0x42 => ResponseCommandId::PrinterInfoSpeed,
            0x41 => ResponseCommandId::PrinterInfoDensity,
            0x46 => ResponseCommandId::PrinterInfoLanguage,
            0x4A => ResponseCommandId::ProtocolVersion,
            0x4C => ResponseCommandId::PrinterInfoHardWareVersion,
            0x43 => ResponseCommandId::PrinterInfoLabelType,
            0x48 => ResponseCommandId::PrinterInfoPrinterCode,
            0x4B => ResponseCommandId::PrinterInfoSerialNumber,
            0x49 => ResponseCommandId::PrinterInfoSoftWareVersion,
            0x4F => ResponseCommandId::PrinterInfoArea,
            0xB5 => ResponseCommandId::PrinterStatusData,
            0x38 => ResponseCommandId::PrinterReset,
            0xB3 => ResponseCommandId::PrintStatus,
            0xDB => ResponseCommandId::PrintError,
            0x16 => ResponseCommandId::PrintQuantity,
            0x02 => ResponseCommandId::PrintStart,
            0x1B => ResponseCommandId::RfidInfo,
            0x1D => ResponseCommandId::RfidInfo2,
            0x64 => ResponseCommandId::RfidSuccessTimes,
            0x37 => ResponseCommandId::SetAutoShutdownTime,
            0x31 => ResponseCommandId::SetDensity,
            0x33 => ResponseCommandId::SetLabelType,
            0x14 => ResponseCommandId::SetPageSize,
            0x68 => ResponseCommandId::SoundSettings,
            0xE4 => ResponseCommandId::PageEnd,
            0xE0 => ResponseCommandId::PrinterPageIndex,
            0x6A => ResponseCommandId::PrintTestPage,
            0x71 => ResponseCommandId::WriteRFID,
            0xF6 => ResponseCommandId::StartFirmwareUpgrade,
            0x90 => ResponseCommandId::RequestFirmwareCrc,
            0x9A => ResponseCommandId::RequestFirmwareChunk,
            0x9D => ResponseCommandId::FirmwareCheckResult,
            0x9E => ResponseCommandId::FirmwareResult,
            0xC6 => ResponseCommandId::ResetTimeout,
            0x11 => ResponseCommandId::GetCurrentTimeFormat,
            0x08 => ResponseCommandId::PrinterConfig2,
            0x0A => ResponseCommandId::GetKeyFunction,
            0x0D => ResponseCommandId::GetPrintQuality,
            0xB2 => ResponseCommandId::GetPrinterConfigurationWifi,
            other => ResponseCommandId::Other(other),
        }
    }
}

impl vstd::std_specs::convert::FromSpecImpl<u8> for ResponseCommandId {
    open spec fn obeys_from_spec() -> bool {
        true
    }

    open spec fn from_spec(byte: u8) -> ResponseCommandId {
        ResponseCommandId::from_wire_byte(byte)
    }
}

/// Decoding loses no byte: the response a byte decodes to arrives on that
/// very byte, so an unrecognized byte is kept verbatim.
pub proof fn lemma_response_keeps_byte(b: u8)
    ensures
        ResponseCommandId::from_wire_byte(b).wire_byte() == b,
        ResponseCommandId::from_wire_byte(b) is Other ==> ResponseCommandId::from_wire_byte(b)
            == ResponseCommandId::Other(b),
{
}

/// A byte decodes to a heartbeat reply exactly when it is one of the four
/// heartbeat reply bytes.
pub proof fn lemma_heartbeat_reply_bytes(b: u8)
    ensures
        ResponseCommandId::from_wire_byte(b).is_heartbeat() <==> (b == 0xDD || b == 0xDE || b
            == 0xDF || b == 0xD9),
{
}

/// Every named response decodes from the byte it arrives on; only the
/// charge-level alias, which shares its byte with the protocol-version
/// reply, and the catch-all `Other` are never produced by decoding.
pub proof fn lemma_named_responses_decode(r: ResponseCommandId)
    requires
        !(r is Other),
        !(r is PrinterInfoChargeLevel),
    ensures
        ResponseCommandId::from_wire_byte(r.wire_byte()) == r,
{
}

/// The protocol's response table, byte by byte: what each known response
/// byte decodes to.
pub proof fn lemma_response_table()
    ensures
        ResponseCommandId::from_wire_byte(0x00) == ResponseCommandId::NotSupported,
        ResponseCommandId::from_wire_byte(0xC2) == ResponseCommandId::Connect,
        ResponseCommandId::from_wire_byte(0x69) == ResponseCommandId::CalibrateHeight,
        ResponseCommandId::from_wire_byte(0xD0) == ResponseCommandId::CancelPrint,
        ResponseCommandId::from_wire_byte(0x0C) == ResponseCommandId::AntiFake,
        ResponseCommandId::from_wire_byte(0xDD) == ResponseCommandId::HeartbeatAdvanced1,
        ResponseCommandId::from_wire_byte(0xDE) == ResponseCommandId::HeartbeatBasic,
        ResponseCommandId::from_wire_byte(0xDF) == ResponseCommandId::HeartbeatUnknown,
        ResponseCommandId::from_wire_byte(0xD9) == ResponseCommandId::HeartbeatAdvanced2,
        ResponseCommandId::from_wire_byte(0x8F) == ResponseCommandId::LabelPositioningCalibration,
        ResponseCommandId::from_wire_byte(0x04) == ResponseCommandId::PageStart,
        ResponseCommandId::from_wire_byte(0x30) == ResponseCommandId::PrintClear,
        ResponseCommandId::from_wire_byte(0xD3) == ResponseCommandId::PrinterCheckLine,
        ResponseCommandId::from_wire_byte(0xF4) == ResponseCommandId::PrintEnd,
        ResponseCommandId::from_wire_byte(0x40) == ResponseCommandId::PrinterInfo,
        ResponseCommandId::from_wire_byte(0xBF) == ResponseCommandId::PrinterConfig,
        ResponseCommandId::from_wire_byte(0x06) == ResponseCommandId::PrinterLog,
        ResponseCommandId::from_wire_byte(0x47) == ResponseCommandId::PrinterInfoAutoShutDownTime,
        ResponseCommandId::from_wire_byte(0x4D) == ResponseCommandId::PrinterInfoBluetoothAddress,
        ResponseCommandId::from_wire_byte(0x42) == ResponseCommandId::PrinterInfoSpeed,
        ResponseCommandId::from_wire_byte(0x41) == ResponseCommandId::PrinterInfoDensity,
        ResponseCommandId::from_wire_byte(0x46) == ResponseCommandId::PrinterInfoLanguage,
        ResponseCommandId::from_wire_byte(0x4A) == ResponseCommandId::ProtocolVersion,
        ResponseCommandId::from_wire_byte(0x4C) == ResponseCommandId::PrinterInfoHardWareVersion,
        ResponseCommandId::from_wire_byte(0x43) == ResponseCommandId::PrinterInfoLabelType,
        ResponseCommandId::from_wire_byte(0x48) == ResponseCommandId::PrinterInfoPrinterCode,
        ResponseCommandId::from_wire_byte(0x4B) == ResponseCommandId::PrinterInfoSerialNumber,
        ResponseCommandId::from_wire_byte(0x49) == ResponseCommandId::PrinterInfoSoftWareVersion,
        ResponseCommandId::from_wire_byte(0x4F) == ResponseCommandId::PrinterInfoArea,
        ResponseCommandId::from_wire_byte(0xB5) == ResponseCommandId::PrinterStatusData,
        ResponseCommandId::from_wire_byte(0x38) == ResponseCommandId::PrinterReset,
        ResponseCommandId::from_wire_byte(0xB3) == ResponseCommandId::PrintStatus,
        ResponseCommandId::from_wire_byte(0xDB) == ResponseCommandId::PrintError,
        ResponseCommandId::from_wire_byte(0x16) == ResponseCommandId::PrintQuantity,
        ResponseCommandId::from_wire_byte(0x02) == ResponseCommandId::PrintStart,
        ResponseCommandId::from_wire_byte(0x1B) == ResponseCommandId::RfidInfo,
        ResponseCommandId::from_wire_byte(0x1D) == ResponseCommandId::RfidInfo2,
        ResponseCommandId::from_wire_byte(0x64) == ResponseCommandId::RfidSuccessTimes,
        ResponseCommandId::from_wire_byte(0x37) == ResponseCommandId::SetAutoShutdownTime,
        ResponseCommandId::from_wire_byte(0x31) == ResponseCommandId::SetDensity,
        ResponseCommandId::from_wire_byte(0x33) == ResponseCommandId::SetLabelType,
        ResponseCommandId::from_wire_byte(0x14) == ResponseCommandId::SetPageSize,
        ResponseCommandId::from_wire_byte(0x68) == ResponseCommandId::SoundSettings,
        ResponseCommandId::from_wire_byte(0xE4) == ResponseCommandId::PageEnd,
        ResponseCommandId::from_wire_byte(0xE0) == ResponseCommandId::PrinterPageIndex,
        ResponseCommandId::from_wire_byte(0x6A) == ResponseCommandId::PrintTestPage,
        ResponseCommandId::from_wire_byte(0x71) == ResponseCommandId::WriteRFID,
        ResponseCommandId::from_wire_byte(0xF6) == ResponseCommandId::StartFirmwareUpgrade,
        ResponseCommandId::from_wire_byte(0x90) == ResponseCommandId::RequestFirmwareCrc,
        ResponseCommandId::from_wire_byte(0x9A) == ResponseCommandId::RequestFirmwareChunk,
        ResponseCommandId::from_wire_byte(0x9D) == ResponseCommandId::FirmwareCheckResult,
        ResponseCommandId::from_wire_byte(0x9E) == ResponseCommandId::FirmwareResult,
        ResponseCommandId::from_wire_byte(0xC6) == ResponseCommandId::ResetTimeout,
        ResponseCommandId::from_wire_byte(0x11) == ResponseCommandId::GetCurrentTimeFormat,
        ResponseCommandId::from_wire_byte(0x08) == ResponseCommandId::PrinterConfig2,
        ResponseCommandId::from_wire_byte(0x0A) == ResponseCommandId::GetKeyFunction,
        ResponseCommandId::from_wire_byte(0x0D) == ResponseCommandId::GetPrintQuality,
        ResponseCommandId::from_wire_byte(0xB2) == ResponseCommandId::GetPrinterConfigurationWifi,
{
}

/// The protocol's request table: the byte each request is sent with.
pub proof fn lemma_request_table()
    ensures
        RequestCommandId::Connect.wire_byte() == 0xC1,
        RequestCommandId::CancelPrint.wire_byte() == 0xDA,
        RequestCommandId::CalibrateHeight.wire_byte() == 0x59,
        RequestCommandId::Heartbeat.wire_byte() == 0xDC,
        RequestCommandId::LabelPositioningCalibration.wire_byte() == 0x8E,
        RequestCommandId::PageEnd.wire_byte() == 0xE3,
        RequestCommandId::PrinterLog.wire_byte() == 0x05,
        RequestCommandId::PageStart.wire_byte() == 0x03,
        RequestCommandId::PrintBitmapRow.wire_byte() == 0x85,
        RequestCommandId::PrintBitmapRowIndexed.wire_byte() == 0x83,
        RequestCommandId::PrintClear.wire_byte() == 0x20,
        RequestCommandId::PrintEmptyRow.wire_byte() == 0x84,
        RequestCommandId::PrintEnd.wire_byte() == 0xF3,
        RequestCommandId::PrinterInfo.wire_byte() == 0x40,
        RequestCommandId::PrinterConfig.wire_byte() == 0xAF,
        RequestCommandId::PrinterStatusData.wire_byte() == 0xA5,
        RequestCommandId::PrinterReset.wire_byte() == 0x28,
        RequestCommandId::PrintQuantity.wire_byte() == 0x15,
        RequestCommandId::PrintStart.wire_byte() == 0x01,
        RequestCommandId::PrintStatus.wire_byte() == 0xA3,
        RequestCommandId::RfidInfo.wire_byte() == 0x1A,
        RequestCommandId::RfidInfo2.wire_byte() == 0x1C,
        RequestCommandId::RfidSuccessTimes.wire_byte() == 0x54,
        RequestCommandId::SetAutoShutdownTime.wire_byte() == 0x27,
        RequestCommandId::SetDensity.wire_byte() == 0x21,
        RequestCommandId::SetLabelType.wire_byte() == 0x23,
        RequestCommandId::SetPageSize.wire_byte() == 0x13,
        RequestCommandId::SoundSettings.wire_byte() == 0x58,
        RequestCommandId::AntiFake.wire_byte() == 0x0B,
        RequestCommandId::WriteRFID.wire_byte() == 0x70,
        RequestCommandId::PrintTestPage.wire_byte() == 0x5A,
        RequestCommandId::StartFirmwareUpgrade.wire_byte() == 0xF5,
        RequestCommandId::FirmwareCrc.wire_byte() == 0x91,
        RequestCommandId::FirmwareCommit.wire_byte() == 0x92,
        RequestCommandId::FirmwareChunk.wire_byte() == 0x9B,
        RequestCommandId::FirmwareNoMoreChunks.wire_byte() == 0x9C,
        RequestCommandId::PrinterCheckLine.wire_byte() == 0x86,
        RequestCommandId::GetCurrentTimeFormat.wire_byte() == 0x12,
        RequestCommandId::PrinterConfig2.wire_byte() == 0x07,
        RequestCommandId::GetKeyFunction.wire_byte() == 0x09,
        RequestCommandId::GetPrintQuality.wire_byte() == 0x0D,
        RequestCommandId::GetPrinterConfigurationWifi.wire_byte() == 0xA2,
{
}

} // verus!
