use paging_core::paging::{
    AudioHeader, PacketType, PolycomCodec, PolycomError, PolycomHeader, PolycomPacket,
    PolycomPacketBuilder, PolycomSession, SessionState, OP_ALERT,
};

#[test]
fn polycom_test_codec_properties() {
    assert_eq!(PolycomCodec::G711U.sample_rate(), 8000);
    assert_eq!(PolycomCodec::G711U.frame_size(), 160);
    assert_eq!(PolycomCodec::G711U.frame_duration_ms(), 20);

    assert_eq!(PolycomCodec::G722.sample_rate(), 16000);
    assert_eq!(PolycomCodec::G722.frame_size(), 160);
    assert_eq!(PolycomCodec::G722.frame_duration_ms(), 20);
}

#[test]
fn test_header_encode_decode() {
    let header = PolycomHeader::new(
        PacketType::Alert,
        26,
        [0xAB, 0xCD, 0xEF, 0x01],
        b"Test Caller".to_vec(),
    );

    let encoded = header.encode().unwrap();
    let (decoded, len) = PolycomHeader::parse(&encoded).unwrap();

    assert_eq!(decoded.packet_type, PacketType::Alert);
    assert_eq!(decoded.channel, 26);
    assert_eq!(decoded.host_serial, [0xAB, 0xCD, 0xEF, 0x01]);
    assert_eq!(decoded.caller_id, b"Test Caller".to_vec());
    assert_eq!(len, encoded.len());
}

#[test]
fn test_audio_header_encode_decode() {
    let audio_header = AudioHeader::new(PolycomCodec::G711U, 0, 160);
    let encoded = audio_header.encode();
    let decoded = AudioHeader::parse(&encoded).unwrap();

    assert_eq!(decoded.codec, PolycomCodec::G711U);
    assert_eq!(decoded.flags, 0);
    assert_eq!(decoded.sample_count, 160);
}

#[test]
fn test_alert_packet_roundtrip() {
    let builder = PolycomPacketBuilder::new(
        26,
        [0x12, 0x34, 0x56, 0x78],
        b"MPS-IP".to_vec(),
        PolycomCodec::G711U,
    );

    let packet_data = builder.build_alert().unwrap();
    let parsed = PolycomPacket::parse(&packet_data).unwrap();

    assert_eq!(parsed.header.packet_type, PacketType::Alert);
    assert_eq!(parsed.header.channel, 26);
    assert_eq!(parsed.header.caller_id, b"MPS-IP".to_vec());
    assert!(parsed.audio_header.is_none());
    assert!(parsed.audio_frame.is_none());
}

#[test]
fn test_transmit_packet_first_frame() {
    let mut builder = PolycomPacketBuilder::new(
        26,
        [0x12, 0x34, 0x56, 0x78],
        b"MPS-IP".to_vec(),
        PolycomCodec::G711U,
    );

    // First frame: no redundant data yet.
    let audio = vec![0xAA; 160];
    let packet_data = builder.build_transmit(&audio).unwrap();
    let parsed = PolycomPacket::parse(&packet_data).unwrap();

    assert_eq!(parsed.header.packet_type, PacketType::Transmit);
    assert!(parsed.audio_header.is_some());
    assert!(parsed.redundant_frame.is_none());
    assert_eq!(parsed.audio_frame.as_ref().unwrap().len(), 160);
}

#[test]
fn test_transmit_packet_with_redundancy() {
    let mut builder = PolycomPacketBuilder::new(
        26,
        [0x12, 0x34, 0x56, 0x78],
        b"MPS-IP".to_vec(),
        PolycomCodec::G711U,
    );

    // First frame
    let audio1 = vec![0xAA; 160];
    let _ = builder.build_transmit(&audio1).unwrap();

    // Second frame carries the first as redundancy.
    let audio2 = vec![0xBB; 160];
    let packet_data = builder.build_transmit(&audio2).unwrap();
    let parsed = PolycomPacket::parse(&packet_data).unwrap();

    assert!(parsed.redundant_frame.is_some());
    assert_eq!(parsed.redundant_frame.as_ref().unwrap(), &audio1);
    assert_eq!(parsed.audio_frame.as_ref().unwrap(), &audio2);
}

#[test]
fn test_end_packet_roundtrip() {
    let builder = PolycomPacketBuilder::new(
        26,
        [0x12, 0x34, 0x56, 0x78],
        b"MPS-IP".to_vec(),
        PolycomCodec::G711U,
    );

    let packet_data = builder.build_end().unwrap();
    let parsed = PolycomPacket::parse(&packet_data).unwrap();

    assert_eq!(parsed.header.packet_type, PacketType::End);
    assert_eq!(parsed.header.channel, 26);
}

#[test]
fn test_emergency_priority_detection() {
    let header_emergency = PolycomHeader::new(PacketType::Alert, 50, [0; 4], Vec::new());
    assert!(header_emergency.is_emergency());
    assert!(!header_emergency.is_priority());

    let header_priority = PolycomHeader::new(PacketType::Alert, 49, [0; 4], Vec::new());
    assert!(!header_priority.is_emergency());
    assert!(header_priority.is_priority());
}

#[test]
fn test_invalid_channel() {
    let data = [OP_ALERT, 0, 0, 0, 0, 0, 0]; // Channel 0 is invalid
    let result = PolycomHeader::parse(&data);
    assert!(matches!(result, Err(PolycomError::InvalidChannel(0))));

    let data = [OP_ALERT, 51, 0, 0, 0, 0, 0]; // Channel 51 is invalid
    let result = PolycomHeader::parse(&data);
    assert!(matches!(result, Err(PolycomError::InvalidChannel(51))));
}

#[test]
fn test_invalid_op_code() {
    let data = [0x00, 26, 0, 0, 0, 0, 0]; // 0x00 is not a valid op code
    let result = PolycomHeader::parse(&data);
    assert!(matches!(result, Err(PolycomError::InvalidOpCode(0x00))));
}

#[test]
fn test_session_state_transitions() {
    let alert_header = PolycomHeader::new(PacketType::Alert, 26, [0; 4], b"Test".to_vec());
    let alert_packet = PolycomPacket {
        header: alert_header,
        audio_header: None,
        redundant_frame: None,
        audio_frame: None,
    };

    let mut session = PolycomSession::from_alert(&alert_packet, 1000);
    assert_eq!(session.state, SessionState::Alerting);
    assert_eq!(session.alert_count, 1);

    // A transmit packet moves the session to Transmitting.
    let transmit_header = PolycomHeader::new(PacketType::Transmit, 26, [0; 4], b"Test".to_vec());
    let transmit_packet = PolycomPacket {
        header: transmit_header,
        audio_header: Some(AudioHeader::new(PolycomCodec::G711U, 0, 0)),
        redundant_frame: None,
        audio_frame: Some(vec![0; 160]),
    };

    session.update(&transmit_packet, 1020);
    assert_eq!(session.state, SessionState::Transmitting);
    assert_eq!(session.audio_packet_count, 1);
    assert_eq!(session.codec, Some(PolycomCodec::G711U));
}

#[test]
fn test_paging_session_completes_after_three_ends() {
    // A page of one alert, 100 transmit packets with redundancy, then end
    // packets: complete exactly at the third end packet.
    let mut builder = PolycomPacketBuilder::new(
        26,
        [0x12, 0x34, 0x56, 0x78],
        b"MPS-IP".to_vec(),
        PolycomCodec::G711U,
    );

    let alert = PolycomPacket::parse(&builder.build_alert().unwrap()).unwrap();
    let mut session = PolycomSession::from_alert(&alert, 0);

    let mut now: u64 = 0;
    for i in 0..100u32 {
        let frame = vec![(i % 256) as u8; 160];
        let bytes = builder.build_transmit(&frame).unwrap();
        let packet = PolycomPacket::parse(&bytes).unwrap();
        if i == 0 {
            assert!(packet.redundant_frame.is_none());
        } else {
            assert!(packet.redundant_frame.is_some());
        }
        now += 20;
        session.update(&packet, now);
    }
    assert_eq!(session.audio_packet_count, 100);
    assert_eq!(session.state, SessionState::Transmitting);

    for i in 0..4u32 {
        let bytes = builder.build_end().unwrap();
        let packet = PolycomPacket::parse(&bytes).unwrap();
        now += 30;
        session.update(&packet, now);
        if i < 2 {
            assert!(!session.is_complete());
        } else {
            assert!(session.is_complete());
        }
    }
    assert_eq!(session.end_count, 4);
    assert_eq!(session.audio_packet_count, 100);
}

#[test]
fn test_session_timeout_and_duration() {
    let alert_header = PolycomHeader::new(PacketType::Alert, 30, [1, 2, 3, 4], b"A".to_vec());
    let packet = PolycomPacket {
        header: alert_header,
        audio_header: None,
        redundant_frame: None,
        audio_frame: None,
    };
    let mut session = PolycomSession::from_alert(&packet, 5000);
    session.update(&packet, 6500);
    assert_eq!(session.duration(), 1500);
    assert!(!session.is_timed_out(8000, 2000));
    assert!(session.is_timed_out(8501, 2000));
}

#[test]
fn test_caller_id_too_long() {
    let builder = PolycomPacketBuilder::new(
        26,
        [0, 0, 0, 0],
        vec![65u8; 300],
        PolycomCodec::G711U,
    );
    assert!(matches!(builder.build_alert(), Err(PolycomError::CallerIdTooLong)));
}

#[test]
fn test_parse_codec_name() {
    assert_eq!(PolycomCodec::parse_name("g711u"), Some(PolycomCodec::G711U));
    assert_eq!(PolycomCodec::parse_name("PCMA"), Some(PolycomCodec::G711A));
    assert_eq!(PolycomCodec::parse_name("G722"), Some(PolycomCodec::G722));
    assert_eq!(PolycomCodec::parse_name("opus"), None);
}

#[test]
fn test_transmit_truncated_audio_header() {
    // A transmit packet whose payload is shorter than the subheader.
    let header = PolycomHeader::new(PacketType::Transmit, 26, [0; 4], Vec::new());
    let mut bytes = header.encode().unwrap();
    bytes.push(0x00);
    let result = PolycomPacket::parse(&bytes);
    assert!(matches!(result, Err(PolycomError::TooShort { .. })));
}

#[test]
fn test_invalid_codec_tag() {
    let data = [0x07, 0, 0, 0, 0, 0];
    let result = AudioHeader::parse(&data);
    assert!(matches!(result, Err(PolycomError::InvalidCodec(0x07))));
}
