use niimbot_rs::protocol::commands::{RequestCommandId, ResponseCommandId};

#[test]
fn request_command_id_round_trips_all_variants() {
    // Every request ID should be recoverable via a plain cast, and
    // none should collide with each other.
    let ids = [
        RequestCommandId::Connect,
        RequestCommandId::CancelPrint,
        RequestCommandId::CalibrateHeight,
        RequestCommandId::Heartbeat,
        RequestCommandId::LabelPositioningCalibration,
        RequestCommandId::PageEnd,
        RequestCommandId::PrinterLog,
        RequestCommandId::PageStart,
        RequestCommandId::PrintBitmapRow,
        RequestCommandId::PrintBitmapRowIndexed,
        RequestCommandId::PrintClear,
        RequestCommandId::PrintEmptyRow,
        RequestCommandId::PrintEnd,
        RequestCommandId::PrinterInfo,
        RequestCommandId::PrinterConfig,
        RequestCommandId::PrinterStatusData,
        RequestCommandId::PrinterReset,
        RequestCommandId::PrintQuantity,
        RequestCommandId::PrintStart,
        RequestCommandId::PrintStatus,
        RequestCommandId::RfidInfo,
        RequestCommandId::RfidInfo2,
        RequestCommandId::RfidSuccessTimes,
        RequestCommandId::SetAutoShutdownTime,
        RequestCommandId::SetDensity,
        RequestCommandId::SetLabelType,
        RequestCommandId::SetPageSize,
        RequestCommandId::SoundSettings,
        RequestCommandId::AntiFake,
        RequestCommandId::WriteRFID,
        RequestCommandId::PrintTestPage,
        RequestCommandId::StartFirmwareUpgrade,
        RequestCommandId::FirmwareCrc,
        RequestCommandId::FirmwareCommit,
        RequestCommandId::FirmwareChunk,
        RequestCommandId::FirmwareNoMoreChunks,
        RequestCommandId::PrinterCheckLine,
        RequestCommandId::GetCurrentTimeFormat,
        RequestCommandId::PrinterConfig2,
        RequestCommandId::GetKeyFunction,
        RequestCommandId::GetPrintQuality,
        RequestCommandId::GetPrinterConfigurationWifi,
    ];
    let mut seen = std::collections::HashSet::new();
    for id in ids {
        assert!(seen.insert(u8::from(id)), "duplicate byte for {id:?}");
    }
}

#[test]
fn response_command_id_from_byte_covers_reference_table() {
    let cases: &[(u8, ResponseCommandId)] = &[
        (0x00, ResponseCommandId::NotSupported),
        (0xC2, ResponseCommandId::Connect),
        (0x69, ResponseCommandId::CalibrateHeight),
        (0xD0, ResponseCommandId::CancelPrint),
        (0x0C, ResponseCommandId::AntiFake),
        (0x8F, ResponseCommandId::LabelPositioningCalibration),
        (0x04, ResponseCommandId::PageStart),
        (0x30, ResponseCommandId::PrintClear),
        (0xD3, ResponseCommandId::PrinterCheckLine),
        (0xF4, ResponseCommandId::PrintEnd),
        (0xBF, ResponseCommandId::PrinterConfig),
        (0x06, ResponseCommandId::PrinterLog),
        (0x47, ResponseCommandId::PrinterInfoAutoShutDownTime),
        (0x4D, ResponseCommandId::PrinterInfoBluetoothAddress),
        (0x42, ResponseCommandId::PrinterInfoSpeed),
        (0x41, ResponseCommandId::PrinterInfoDensity),
        (0x46, ResponseCommandId::PrinterInfoLanguage),
        (0x4C, ResponseCommandId::PrinterInfoHardWareVersion),
        (0x43, ResponseCommandId::PrinterInfoLabelType),
        (0x48, ResponseCommandId::PrinterInfoPrinterCode),
        (0x4B, ResponseCommandId::PrinterInfoSerialNumber),
        (0x49, ResponseCommandId::PrinterInfoSoftWareVersion),
        (0x4F, ResponseCommandId::PrinterInfoArea),
        (0xB5, ResponseCommandId::PrinterStatusData),
        (0x38, ResponseCommandId::PrinterReset),
        (0xB3, ResponseCommandId::PrintStatus),
        (0xDB, ResponseCommandId::PrintError),
        (0x16, ResponseCommandId::PrintQuantity),
        (0x02, ResponseCommandId::PrintStart),
        (0x1B, ResponseCommandId::RfidInfo),
        (0x1D, ResponseCommandId::RfidInfo2),
        (0x64, ResponseCommandId::RfidSuccessTimes),
        (0x37, ResponseCommandId::SetAutoShutdownTime),
        (0x31, ResponseCommandId::SetDensity),
        (0x33, ResponseCommandId::SetLabelType),
        (0x14, ResponseCommandId::SetPageSize),
        (0x68, ResponseCommandId::SoundSettings),
        (0xE4, ResponseCommandId::PageEnd),
        (0xE0, ResponseCommandId::PrinterPageIndex),
        (0x6A, ResponseCommandId::PrintTestPage),
        (0x71, ResponseCommandId::WriteRFID),
        (0xF6, ResponseCommandId::StartFirmwareUpgrade),
        (0x90, ResponseCommandId::RequestFirmwareCrc),
        (0x9A, ResponseCommandId::RequestFirmwareChunk),
        (0x9D, ResponseCommandId::FirmwareCheckResult),
        (0x9E, ResponseCommandId::FirmwareResult),
        (0xC6, ResponseCommandId::ResetTimeout),
        (0x11, ResponseCommandId::GetCurrentTimeFormat),
        (0x08, ResponseCommandId::PrinterConfig2),
        (0x0A, ResponseCommandId::GetKeyFunction),
        (0x0D, ResponseCommandId::GetPrintQuality),
        (0xB2, ResponseCommandId::GetPrinterConfigurationWifi),
    ];
    for (byte, expected) in cases {
        assert_eq!(ResponseCommandId::from(*byte), *expected, "byte {byte:#04x}");
    }
}

#[test]
fn unrecognized_byte_falls_back_to_other() {
    assert_eq!(ResponseCommandId::from(0xEE), ResponseCommandId::Other(0xEE));
}
