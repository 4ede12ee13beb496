use paging_core::rtp::{PayloadType, RtpError, RtpPacket};

#[test]
fn test_parse_valid_rtp_packet() {
    // Minimal valid RTP packet: V=2, P=0, X=0, CC=0, M=0, PT=0
    let data = [
        0x80, 0x00, // V=2, P=0, X=0, CC=0, M=0, PT=0
        0x00, 0x01, // Sequence number = 1
        0x00, 0x00, 0x00, 0xA0, // Timestamp = 160
        0x12, 0x34, 0x56, 0x78, // SSRC
        0xAA, 0xBB, // Payload
    ];

    let packet = RtpPacket::parse(&data).unwrap();
    assert_eq!(packet.header.version, 2);
    assert!(!packet.header.padding);
    assert!(!packet.header.extension);
    assert_eq!(packet.header.csrc_count, 0);
    assert!(!packet.header.marker);
    assert_eq!(packet.header.payload_type, 0);
    assert_eq!(packet.header.sequence_number, 1);
    assert_eq!(packet.header.timestamp, 160);
    assert_eq!(packet.header.ssrc, 0x12345678);
    assert_eq!(packet.payload, vec![0xAA, 0xBB]);
}

#[test]
fn test_parse_with_csrc() {
    // RTP packet with 2 CSRC entries
    let data = [
        0x82, 0x00, // V=2, P=0, X=0, CC=2
        0x00, 0x01, // Sequence number
        0x00, 0x00, 0x00, 0xA0, // Timestamp
        0x12, 0x34, 0x56, 0x78, // SSRC
        0x11, 0x11, 0x11, 0x11, // CSRC 1
        0x22, 0x22, 0x22, 0x22, // CSRC 2
        0xAA, // Payload
    ];

    let packet = RtpPacket::parse(&data).unwrap();
    assert_eq!(packet.header.csrc_count, 2);
    assert_eq!(packet.header.csrc.len(), 2);
    assert_eq!(packet.header.csrc[0], 0x11111111);
    assert_eq!(packet.header.csrc[1], 0x22222222);
    assert_eq!(packet.payload, vec![0xAA]);
}

#[test]
fn test_parse_with_marker() {
    let data = [
        0x80, 0x80, // V=2, M=1, PT=0
        0x00, 0x01, 0x00, 0x00, 0x00, 0xA0, 0x12, 0x34, 0x56, 0x78,
    ];

    let packet = RtpPacket::parse(&data).unwrap();
    assert!(packet.header.marker);
}

#[test]
fn test_parse_too_short() {
    let data = [0x80, 0x00, 0x00];
    let result = RtpPacket::parse(&data);
    assert!(matches!(result, Err(RtpError::TooShort(3))));
}

#[test]
fn test_parse_invalid_version() {
    let data = [
        0x00, 0x00, // V=0 (invalid)
        0x00, 0x01, 0x00, 0x00, 0x00, 0xA0, 0x12, 0x34, 0x56, 0x78,
    ];

    let result = RtpPacket::parse(&data);
    assert!(matches!(result, Err(RtpError::InvalidVersion(0))));
}

#[test]
fn test_build_rtp_packet() {
    let payload = vec![0xAA, 0xBB, 0xCC];
    let packet = RtpPacket::build(0, 1, 160, 0x12345678, &payload, false);

    assert_eq!(packet.len(), 12 + 3);
    assert_eq!(packet[0], 0x80); // V=2
    assert_eq!(packet[1], 0x00); // PT=0
    assert_eq!(&packet[12..], &[0xAA, 0xBB, 0xCC]);
}

#[test]
fn test_roundtrip() {
    let payload = vec![0x01, 0x02, 0x03, 0x04];
    let built = RtpPacket::build(8, 100, 16000, 0xABCDEF00, &payload, true);
    let parsed = RtpPacket::parse(&built).unwrap();

    assert_eq!(parsed.header.payload_type, 8);
    assert_eq!(parsed.header.sequence_number, 100);
    assert_eq!(parsed.header.timestamp, 16000);
    assert_eq!(parsed.header.ssrc, 0xABCDEF00);
    assert!(parsed.header.marker);
    assert_eq!(parsed.payload, payload);
}

#[test]
fn test_payload_types() {
    assert_eq!(PayloadType::from_pt(0), PayloadType::Pcmu);
    assert_eq!(PayloadType::from_pt(8), PayloadType::Pcma);
    assert_eq!(PayloadType::from_pt(9), PayloadType::G722);
    assert_eq!(PayloadType::from_pt(96), PayloadType::Dynamic(96));
    assert_eq!(PayloadType::Pcmu.sample_rate(), 8000);
    assert_eq!(PayloadType::G722.sample_rate(), 16000);
}

#[test]
fn test_parse_invalid_padding() {
    // Padding flag set but the trailing length byte says 0.
    let data = [
        0xA0, 0x00, 0x00, 0x01, 0x00, 0x00, 0x00, 0xA0, 0x12, 0x34, 0x56, 0x78, 0xAA, 0x00,
    ];
    let result = RtpPacket::parse(&data);
    assert!(matches!(result, Err(RtpError::InvalidPadding)));
}

#[test]
fn test_parse_truncated_csrc() {
    // CC=2 but only one CSRC's worth of bytes follows.
    let data = [
        0x82, 0x00, 0x00, 0x01, 0x00, 0x00, 0x00, 0xA0, 0x12, 0x34, 0x56, 0x78, 0x11, 0x11,
        0x11, 0x11,
    ];
    let result = RtpPacket::parse(&data);
    assert!(matches!(result, Err(RtpError::Truncated { expected: 20, actual: 16 })));
}

#[test]
fn test_parse_with_padding() {
    // Two payload bytes followed by two padding bytes, the last saying 2.
    let data = [
        0xA0, 0x00, 0x00, 0x01, 0x00, 0x00, 0x00, 0xA0, 0x12, 0x34, 0x56, 0x78, 0xAA, 0xBB,
        0x00, 0x02,
    ];
    let packet = RtpPacket::parse(&data).unwrap();
    assert!(packet.header.padding);
    assert_eq!(packet.payload, vec![0xAA, 0xBB]);
}
