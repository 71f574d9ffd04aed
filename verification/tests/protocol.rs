use niimbot_rs::protocol::{
    decode_connect, decode_heartbeat, DecodeError, HeartbeatType, NiimbotPacket, PacketDecoder,
    PrinterInfoType, RequestCommandId, HEAD,
};

/// Two back-to-back packets, the canonical bundling example of the
/// protocol: `55554a01044faaaa5555f60101f6aaaa`.
const BUNDLE: [u8; 16] = [
    0x55, 0x55, 0x4a, 0x01, 0x04, 0x4f, 0xaa, 0xaa, //
    0x55, 0x55, 0xf6, 0x01, 0x01, 0xf6, 0xaa, 0xaa,
];

#[test]
fn parses_reference_bundle() {
    let (p1, consumed1) = NiimbotPacket::parse(&BUNDLE).unwrap().unwrap();
    assert_eq!(consumed1, 8);
    assert_eq!(p1.command(), 0x4a);
    assert_eq!(p1.data(), &[0x04]);

    let (p2, consumed2) = NiimbotPacket::parse(&BUNDLE[consumed1..]).unwrap().unwrap();
    assert_eq!(consumed2, 8);
    assert_eq!(p2.command(), 0xf6);
    assert_eq!(p2.data(), &[0x01]);
}

#[test]
fn decoder_handles_fragmented_feed() {
    let mut decoder = PacketDecoder::new();

    // Feed one byte at a time to exercise partial-buffer handling.
    for byte in &BUNDLE[..10] {
        decoder.feed(&[*byte]);
    }
    let first = decoder.try_next().unwrap().unwrap();
    assert_eq!(first.command(), 0x4a);

    // Second packet is still incomplete.
    assert!(decoder.try_next().unwrap().is_none());

    decoder.feed(&BUNDLE[10..]);
    let second = decoder.try_next().unwrap().unwrap();
    assert_eq!(second.command(), 0xf6);
}

#[test]
fn round_trips_connect_and_heartbeat() {
    let connect = NiimbotPacket::connect();
    let bytes = connect.to_bytes();
    // 0x03 wire-prefix quirk, then a normal packet.
    assert_eq!(bytes[0], 0x03);
    let (parsed, consumed) = NiimbotPacket::parse(&bytes[1..]).unwrap().unwrap();
    assert_eq!(consumed, bytes.len() - 1);
    assert_eq!(parsed.command(), RequestCommandId::Connect.into());
    assert_eq!(parsed.data(), &[1]);

    let heartbeat = NiimbotPacket::heartbeat(HeartbeatType::Advanced1);
    let bytes = heartbeat.to_bytes();
    assert_eq!(bytes[0], HEAD[0]); // no prefix quirk for heartbeat
    let (parsed, _) = NiimbotPacket::parse(&bytes).unwrap().unwrap();
    assert_eq!(parsed.data(), &[u8::from(HeartbeatType::Advanced1)]);
}

#[test]
fn rejects_bad_checksum() {
    let mut bytes = NiimbotPacket::heartbeat(HeartbeatType::Advanced1).to_bytes();
    let checksum_pos = bytes.len() - 3; // just before TAIL
    bytes[checksum_pos] ^= 0xff;
    assert_eq!(
        NiimbotPacket::parse(&bytes),
        Err(DecodeError::ChecksumMismatch {
            expected: bytes[checksum_pos] ^ 0xff,
            actual: bytes[checksum_pos],
        })
    );
}

#[test]
fn incomplete_packet_returns_none_not_error() {
    let bytes = NiimbotPacket::heartbeat(HeartbeatType::Advanced1).to_bytes();
    for cut in 0..bytes.len() {
        assert_eq!(NiimbotPacket::parse(&bytes[..cut]), Ok(None));
    }
}

#[test]
fn decode_heartbeat_advanced1_len_10() {
    let mut data = vec![0u8; 10];
    data[8] = 0; // lid closed
    data[9] = 77; // charge level
    let packet = NiimbotPacket::new(0xDDu8, data);
    let decoded = decode_heartbeat(&packet).unwrap();
    assert_eq!(decoded.lid_closed, Some(true));
    assert_eq!(decoded.charge_level, Some(77));
}

#[test]
fn decode_heartbeat_advanced2() {
    let data = vec![0, 0, 88, 25, 0, 1, 1, 1, 1];
    let packet = NiimbotPacket::new(0xD9u8, data);
    let decoded = decode_heartbeat(&packet).unwrap();
    assert_eq!(decoded.charge_level, Some(88));
    assert_eq!(decoded.temp, Some(25));
    assert_eq!(decoded.lid_closed, Some(true));
    assert_eq!(decoded.paper_inserted, Some(false));
    assert_eq!(decoded.paper_rfid_success, Some(true));
    assert_eq!(decoded.ribbon_rfid_success, Some(true));
    assert_eq!(decoded.ribbon_inserted, Some(false));
    assert_eq!(decoded.wifi_rssi, None);
}

#[test]
fn try_new_rejects_oversized_payload() {
    let data = vec![0u8; 256];
    assert_eq!(NiimbotPacket::try_new(0xD9u8, data), Err(256));
}

#[test]
fn try_new_accepts_max_len_payload() {
    let data = vec![0u8; 255];
    assert!(NiimbotPacket::try_new(0xD9u8, data).is_ok());
}

#[test]
fn printer_info_typed_matches_raw_single_key() {
    let typed = NiimbotPacket::printer_info_typed(PrinterInfoType::SerialNumber);
    let raw = NiimbotPacket::printer_info(&[PrinterInfoType::SerialNumber.into()]);
    assert_eq!(typed, raw);
    assert_eq!(typed.data(), &[11]);
}

#[test]
fn decode_connect_rejects_unknown_byte_and_wrong_command() {
    let unknown = NiimbotPacket::new(0xC2u8, vec![99]);
    assert_eq!(decode_connect(&unknown), None);

    let wrong_command = NiimbotPacket::new(0xDDu8, vec![1]);
    assert_eq!(decode_connect(&wrong_command), None);

    let empty = NiimbotPacket::new(0xC2u8, vec![]);
    assert_eq!(decode_connect(&empty), None);
}

#[test]
fn decode_heartbeat_advanced2_with_wifi() {
    let data = vec![0, 0, 88, 25, 0, 1, 1, 1, 1, 42];
    let packet = NiimbotPacket::new(0xD9u8, data);
    let decoded = decode_heartbeat(&packet).unwrap();
    assert_eq!(decoded.charge_level, Some(88));
    assert_eq!(decoded.temp, Some(25));
    assert_eq!(decoded.lid_closed, Some(true));
    assert_eq!(decoded.paper_inserted, Some(false));
    assert_eq!(decoded.paper_rfid_success, Some(true));
    assert_eq!(decoded.ribbon_rfid_success, Some(true));
    assert_eq!(decoded.ribbon_inserted, Some(false));
    assert_eq!(decoded.wifi_rssi, Some(42));
}
