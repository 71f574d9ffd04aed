use niimbot_rs::error::is_device_gone;
use niimbot_rs::protocol::commands;
use niimbot_rs::protocol::commands::ResponseCommandId as Full;
use niimbot_rs::protocol::{
    decode_connect, decode_heartbeat, ConnectResult, DecodeError, HeartbeatType, NiimbotPacket,
    PacketDecoder, PrinterInfoType, RequestCommandId, ResponseCommandId, HEAD, TAIL,
};
use niimbot_rs::serial_client::{
    after_read, printer_info_reply_command, wait_step, WaitStep, DEFAULT_PROTOCOL_VERSION,
};

#[test]
fn markers_are_the_documented_bytes() {
    assert_eq!(HEAD, [0x55, 0x55]);
    assert_eq!(TAIL, [0xAA, 0xAA]);
}

#[test]
fn checksum_is_command_xor_len_xor_data() {
    // 0x12 ^ 3 ^ (1 ^ 2 ^ 3) == 0x11
    let bytes = NiimbotPacket::new(0x12, vec![1, 2, 3]).to_bytes();
    assert_eq!(bytes, vec![0x55, 0x55, 0x12, 0x03, 1, 2, 3, 0x11, 0xAA, 0xAA]);
    let empty = NiimbotPacket::new(0x7E, vec![]).to_bytes();
    assert_eq!(empty, vec![0x55, 0x55, 0x7E, 0x00, 0x7E, 0xAA, 0xAA]);
}

#[test]
fn connect_request_bytes() {
    let bytes = NiimbotPacket::connect().to_bytes();
    assert_eq!(bytes, vec![0x03, 0x55, 0x55, 0xC1, 0x01, 0x01, 0xC1, 0xAA, 0xAA]);
}

#[test]
fn heartbeat_and_info_request_bytes() {
    assert_eq!(
        NiimbotPacket::heartbeat(HeartbeatType::Advanced2).to_bytes(),
        vec![0x55, 0x55, 0xDC, 0x01, 0x04, 0xD9, 0xAA, 0xAA]
    );
    let info = NiimbotPacket::printer_info_typed(PrinterInfoType::PrinterModelId);
    assert_eq!(info.command(), 0x40);
    assert_eq!(info.data(), &[8]);
    let raw = NiimbotPacket::printer_info(&[1, 2, 3]);
    assert_eq!(raw.data(), &[1, 2, 3]);
}

#[test]
fn frame_parses_back_with_trailing_bytes() {
    let packet = NiimbotPacket::new(0x12, vec![1, 2, 3]);
    let mut bytes = packet.to_bytes();
    let frame_len = bytes.len();
    bytes.extend_from_slice(&[0x55, 0x01, 0x02]);
    let (parsed, consumed) = NiimbotPacket::parse(&bytes).unwrap().unwrap();
    assert_eq!(parsed, packet);
    assert_eq!(consumed, frame_len);
}

#[test]
fn max_payload_round_trips() {
    let data: Vec<u8> = (0..255u32).map(|i| i as u8).collect();
    let packet = NiimbotPacket::new(0x99, data.clone());
    let bytes = packet.to_bytes();
    assert_eq!(bytes.len(), 255 + 7);
    assert_eq!(bytes[3], 255);
    let (parsed, consumed) = NiimbotPacket::parse(&bytes).unwrap().unwrap();
    assert_eq!(parsed.data(), &data[..]);
    assert_eq!(consumed, 262);
}

#[test]
fn bad_head_is_rejected_at_once() {
    assert_eq!(NiimbotPacket::parse(&[]), Ok(None));
    assert_eq!(NiimbotPacket::parse(&[0x55]), Ok(None));
    assert_eq!(NiimbotPacket::parse(&[0x00]), Err(DecodeError::InvalidHead));
    assert_eq!(NiimbotPacket::parse(&[0x55, 0x54]), Err(DecodeError::InvalidHead));
    assert_eq!(NiimbotPacket::parse(&[0x00, 0x55, 0x55]), Err(DecodeError::InvalidHead));
}

#[test]
fn bad_tail_is_rejected() {
    let mut bytes = NiimbotPacket::new(0x10, vec![7]).to_bytes();
    let last = bytes.len() - 1;
    bytes[last] = 0xAB;
    assert_eq!(NiimbotPacket::parse(&bytes), Err(DecodeError::InvalidTail));
}

#[test]
fn decided_outcome_does_not_change_with_more_bytes() {
    let mut bytes = NiimbotPacket::new(0x10, vec![7]).to_bytes();
    let checksum_pos = bytes.len() - 3;
    bytes[checksum_pos] = 0x00;
    let before = NiimbotPacket::parse(&bytes);
    bytes.extend_from_slice(&[0x55, 0x55, 0x01]);
    assert_eq!(NiimbotPacket::parse(&bytes), before);
    assert_eq!(
        before,
        Err(DecodeError::ChecksumMismatch { expected: 0x10 ^ 1 ^ 7, actual: 0x00 })
    );
}

#[test]
fn decoder_keeps_bytes_after_a_packet() {
    let mut decoder = PacketDecoder::new();
    assert_eq!(decoder.try_next(), Ok(None));
    let first = NiimbotPacket::new(0x21, vec![5, 6]);
    let second = NiimbotPacket::new(0x22, vec![]);
    let mut stream = first.to_bytes();
    stream.extend_from_slice(&second.to_bytes());
    decoder.feed(&stream[..stream.len() - 2]);
    assert_eq!(decoder.try_next(), Ok(Some(first)));
    assert_eq!(decoder.try_next(), Ok(None));
    decoder.feed(&stream[stream.len() - 2..]);
    assert_eq!(decoder.try_next(), Ok(Some(second)));
    assert_eq!(decoder.try_next(), Ok(None));
}

#[test]
fn decoder_drops_malformed_data_and_resynchronizes() {
    let mut decoder = PacketDecoder::new();
    decoder.feed(&[0x01, 0x02, 0x03]);
    assert_eq!(decoder.try_next(), Err(DecodeError::InvalidHead));
    // The malformed bytes are gone: nothing is left to report.
    assert_eq!(decoder.try_next(), Ok(None));
    let packet = NiimbotPacket::heartbeat(HeartbeatType::Basic);
    decoder.feed(&packet.to_bytes());
    assert_eq!(decoder.try_next(), Ok(Some(packet)));
}

#[test]
fn response_ids_of_the_small_table() {
    assert_eq!(NiimbotPacket::new(0xC2, vec![]).response_id(), ResponseCommandId::Connect);
    assert_eq!(NiimbotPacket::new(0x4A, vec![]).response_id(), ResponseCommandId::ProtocolVersion);
    assert_eq!(NiimbotPacket::new(0x40, vec![]).response_id(), ResponseCommandId::PrinterInfo);
    assert_eq!(NiimbotPacket::new(0x00, vec![]).response_id(), ResponseCommandId::Other(0x00));
    assert_eq!(ResponseCommandId::from(0xD9), ResponseCommandId::HeartbeatAdvanced2);
    assert!(ResponseCommandId::from(0xDE).is_heartbeat_reply());
    assert!(ResponseCommandId::from(0xDF).is_heartbeat_reply());
    assert!(!ResponseCommandId::from(0xC2).is_heartbeat_reply());
    assert!(!ResponseCommandId::Other(0xDD).is_heartbeat_reply());
}

#[test]
fn request_and_parameter_bytes() {
    assert_eq!(u8::from(RequestCommandId::PrinterInfo), 0x40);
    assert_eq!(u8::from(RequestCommandId::Connect), 0xC1);
    assert_eq!(u8::from(RequestCommandId::Heartbeat), 0xDC);
    assert_eq!(u8::from(PrinterInfoType::Density), 1);
    assert_eq!(u8::from(PrinterInfoType::Language), 6);
    assert_eq!(u8::from(PrinterInfoType::Area), 15);
    assert_eq!(u8::from(HeartbeatType::Basic), 2);
    assert_eq!(u8::from(HeartbeatType::Advanced2), 4);
}

#[test]
fn connect_results() {
    for byte in 0..=3u8 {
        let result = ConnectResult::from_byte(byte).unwrap();
        assert_eq!(u8::from(result), byte);
    }
    assert_eq!(ConnectResult::from_byte(4), None);
    assert_eq!(ConnectResult::from_byte(0xFF), None);
    assert!(!ConnectResult::Disconnect.is_connected());
    assert!(ConnectResult::Connected.is_connected());
    assert!(ConnectResult::ConnectedNew.is_connected());
    assert!(ConnectResult::ConnectedV3.is_connected());
    let reply = NiimbotPacket::new(0xC2, vec![1, 9]);
    assert_eq!(decode_connect(&reply), Some(ConnectResult::Connected));
    let reply = NiimbotPacket::new(0xC2, vec![0]);
    assert_eq!(decode_connect(&reply), Some(ConnectResult::Disconnect));
}

#[test]
fn heartbeat_advanced1_layouts() {
    let mut data = vec![0u8; 13];
    data[9] = 1;
    data[10] = 50;
    data[11] = 0;
    data[12] = 1;
    let d = decode_heartbeat(&NiimbotPacket::new(0xDD, data)).unwrap();
    assert_eq!(d.lid_closed, Some(false));
    assert_eq!(d.charge_level, Some(50));
    assert_eq!(d.paper_inserted, Some(true));
    assert_eq!(d.paper_rfid_success, Some(true));
    assert_eq!(d.temp, None);

    let mut data = vec![0u8; 19];
    data[15] = 0;
    data[16] = 30;
    data[17] = 2;
    data[18] = 0;
    let d = decode_heartbeat(&NiimbotPacket::new(0xDD, data)).unwrap();
    assert_eq!(d.lid_closed, Some(true));
    assert_eq!(d.charge_level, Some(30));
    assert_eq!(d.paper_inserted, Some(false));
    assert_eq!(d.paper_rfid_success, Some(false));

    let mut data = vec![0u8; 20];
    data[18] = 0;
    data[19] = 3;
    let d = decode_heartbeat(&NiimbotPacket::new(0xDD, data)).unwrap();
    assert_eq!(d.lid_closed, None);
    assert_eq!(d.charge_level, None);
    assert_eq!(d.paper_inserted, Some(true));
    assert_eq!(d.paper_rfid_success, Some(true));

    assert_eq!(decode_heartbeat(&NiimbotPacket::new(0xDD, vec![0u8; 11])), None);
}

#[test]
fn heartbeat_rejections() {
    assert_eq!(decode_heartbeat(&NiimbotPacket::new(0xD9, vec![0u8; 8])), None);
    assert_eq!(decode_heartbeat(&NiimbotPacket::new(0xDE, vec![0u8; 10])), None);
    assert_eq!(decode_heartbeat(&NiimbotPacket::new(0xC2, vec![0u8; 10])), None);
    let d = decode_heartbeat(&NiimbotPacket::new(0xD9, vec![0u8; 12])).unwrap();
    assert_eq!(d.wifi_rssi, Some(0));
}

#[test]
fn text_renderings() {
    assert_eq!(ConnectResult::Disconnect.to_string(), "0 - Disconnect");
    assert_eq!(ConnectResult::Connected.to_string(), "1 - Connected");
    assert_eq!(ConnectResult::ConnectedNew.to_string(), "2 - ConnectedNew");
    assert_eq!(ConnectResult::ConnectedV3.to_string(), "3 - ConnectedV3");
    assert_eq!(
        NiimbotPacket::new(0x4a, vec![0x04, 0xaa]).to_string(),
        "NiimbotPacket { command: 0x4a, data: [04 aa] }"
    );
    assert_eq!(
        NiimbotPacket::new(0x05, vec![]).to_string(),
        "NiimbotPacket { command: 0x05, data: [] }"
    );
    assert_eq!(
        NiimbotPacket::connect().to_string(),
        "NiimbotPacket { command: 0xc1, data: [01] }"
    );
}

#[test]
fn clone_keeps_the_packet() {
    let packet = NiimbotPacket::connect();
    let copy = packet.clone();
    assert_eq!(copy, packet);
    assert_eq!(copy.to_bytes(), packet.to_bytes());
}

#[test]
fn device_gone_errors() {
    assert!(is_device_gone(Some(5)));
    assert!(is_device_gone(Some(6)));
    assert!(!is_device_gone(Some(4)));
    assert!(!is_device_gone(Some(110)));
    assert!(!is_device_gone(None));
}

#[test]
fn printer_info_reply_commands() {
    assert_eq!(printer_info_reply_command(PrinterInfoType::PrinterModelId), 0x48);
    assert_eq!(printer_info_reply_command(PrinterInfoType::BatteryChargeLevel), 0x4A);
    assert_eq!(printer_info_reply_command(PrinterInfoType::Area), 0x4F);
    assert_eq!(DEFAULT_PROTOCOL_VERSION, 1);
}

#[test]
fn full_response_table_keeps_every_byte() {
    assert_eq!(Full::from(0x4A), Full::ProtocolVersion);
    assert_eq!(Full::from(0x00), Full::NotSupported);
    assert_eq!(Full::from(0xDD), Full::HeartbeatAdvanced1);
    assert!(Full::from(0xD9).is_heartbeat_reply());
    assert!(!Full::from(0xC2).is_heartbeat_reply());
    assert_eq!(Full::from(0xFE), Full::Other(0xFE));
    assert_eq!(u8::from(commands::RequestCommandId::FirmwareChunk), 0x9B);
    assert_eq!(u8::from(commands::RequestCommandId::PageStart), 0x03);
}

#[test]
fn decoder_keeps_a_frame_behind_junk() {
    let packet = NiimbotPacket::heartbeat(HeartbeatType::Advanced1);
    let mut decoder = PacketDecoder::new();
    decoder.feed(&[0x00, 0x00]);
    decoder.feed(&packet.to_bytes());
    assert_eq!(decoder.try_next(), Err(DecodeError::InvalidHead));
    assert_eq!(decoder.try_next(), Ok(Some(packet)));
    assert_eq!(decoder.try_next(), Ok(None));
}

#[test]
fn decoder_resynchronizes_past_a_corrupt_frame() {
    let good = NiimbotPacket::new(0x33, vec![0x55, 0x55, 0x01]);
    let mut bad = NiimbotPacket::new(0x10, vec![7]).to_bytes();
    let checksum_pos = bad.len() - 3;
    bad[checksum_pos] ^= 0x01;
    let mut decoder = PacketDecoder::new();
    decoder.feed(&bad);
    decoder.feed(&good.to_bytes());
    let mut errors = 0;
    loop {
        match decoder.try_next() {
            Err(_) => errors += 1,
            Ok(Some(p)) => {
                assert_eq!(p, good);
                break;
            }
            Ok(None) => panic!("the good frame was lost"),
        }
    }
    assert!(errors >= 1);
    assert_eq!(decoder.try_next(), Ok(None));
}

#[test]
fn decoder_keeps_a_lone_trailing_head_byte() {
    let mut decoder = PacketDecoder::new();
    decoder.feed(&[0x01, 0x55]);
    assert_eq!(decoder.try_next(), Err(DecodeError::InvalidHead));
    let packet = NiimbotPacket::new(0x44, vec![]);
    decoder.feed(&packet.to_bytes()[1..]);
    assert_eq!(decoder.try_next(), Ok(Some(packet)));
}

#[test]
fn frame_body_xors_to_zero() {
    let bytes = NiimbotPacket::new(0x5A, vec![0x13, 0x37, 0xC0]).to_bytes();
    let body = &bytes[2..bytes.len() - 2];
    assert_eq!(body.iter().fold(0u8, |acc, b| acc ^ b), 0);
}

#[test]
fn wait_loop_decisions() {
    let packet: Result<Option<NiimbotPacket>, DecodeError> = Ok(Some(NiimbotPacket::new(0x01, vec![])));
    assert_eq!(wait_step(&packet, true), WaitStep::Deliver);
    assert_eq!(wait_step(&packet, false), WaitStep::Skip);
    assert_eq!(wait_step(&Ok(None), true), WaitStep::Read);
    assert_eq!(wait_step(&Err(DecodeError::InvalidTail), true), WaitStep::Skip);
    assert_eq!(after_read(0), WaitStep::StreamEnded);
    assert_eq!(after_read(1), WaitStep::Read);
    assert_eq!(after_read(512), WaitStep::Read);
}
