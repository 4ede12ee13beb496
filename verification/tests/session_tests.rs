use paging_core::rtp::RtpPacket;
use paging_core::session::RtpEndpointSession;

#[test]
fn test_page_starts_on_first_packet() {
    let mut slot = RtpEndpointSession::new();
    let started = slot.on_packet(0xABCD, 1, 160, 160, 1_000, 1_000_000);
    assert!(started);
    assert!(slot.page_active);
    assert_eq!(slot.page_count, 1);
    assert_eq!(slot.stats.packets_received, 1);
}

#[test]
fn test_same_stream_continues_page() {
    let mut slot = RtpEndpointSession::new();
    slot.on_packet(0xABCD, 1, 160, 160, 1_000, 1_000_000);
    let started = slot.on_packet(0xABCD, 2, 320, 160, 1_020, 1_020_000);
    assert!(!started);
    assert_eq!(slot.page_count, 1);
    assert_eq!(slot.stats.packets_received, 2);
}

#[test]
fn test_ssrc_tiebreak_rejects_second_stream() {
    // The first stream claims the slot until the page ends.
    let mut slot = RtpEndpointSession::new();
    slot.on_packet(0xAAAA, 1, 160, 160, 1_000, 1_000_000);
    assert!(slot.accepts(0xAAAA));
    assert!(!slot.accepts(0xBBBB));
}

#[test]
fn test_idle_finalisation_splits_pages() {
    // A gap beyond the idle timeout ends the page; the tail starts a new
    // one, even from the same stream.
    let mut slot = RtpEndpointSession::new();
    slot.on_packet(0xAAAA, 1, 160, 160, 1_000, 1_000_000);
    slot.on_packet(0xAAAA, 2, 320, 160, 1_020, 1_020_000);

    let idle_timeout_ms = 5_000;
    assert!(!slot.should_end(2_000, idle_timeout_ms));
    assert!(slot.should_end(6_020, idle_timeout_ms));

    let totals = slot.end_page();
    assert_eq!(totals.packets_received, 2);
    assert_eq!(totals.duration_ms, 20);
    assert!(!slot.page_active);

    let started = slot.on_packet(0xAAAA, 3, 480, 160, 7_000, 7_000_000);
    assert!(started);
    assert_eq!(slot.page_count, 2);
    assert_eq!(slot.stats.packets_received, 1);
}

#[test]
fn test_invalid_packets_leave_counters_alone() {
    // Malformed datagrams interleaved with a valid stream: the parse
    // rejects them, so only the valid packets reach the session.
    let mut slot = RtpEndpointSession::new();
    let bad_datagrams: Vec<Vec<u8>> = vec![
        vec![0x00, 0x00, 0x00, 0x01, 0x00, 0x00, 0x00, 0xA0, 0x12, 0x34, 0x56, 0x78], // bad version
        vec![0x80, 0x00, 0x00],                                                       // truncated
        vec![],                                                                       // empty
        vec![0x82, 0x00, 0x00, 0x01, 0x00, 0x00, 0x00, 0xA0, 0x12, 0x34, 0x56, 0x78], // CSRC cut off
        vec![0xA0, 0x00, 0x00, 0x01, 0x00, 0x00, 0x00, 0xA0, 0x12, 0x34, 0x56, 0x78, 0x00], // zero padding
    ];

    let mut now_ms: u64 = 1_000;
    let mut valid = 0u64;
    for i in 0..10u16 {
        let payload = vec![0u8; 160];
        let built = RtpPacket::build(0, i, 160 * (i as u32), 0x5555, &payload, false);
        let bad = &bad_datagrams[(i as usize) % bad_datagrams.len()];

        for datagram in [bad.as_slice(), built.as_slice()] {
            if let Ok(packet) = RtpPacket::parse(datagram) {
                slot.on_packet(
                    packet.header.ssrc,
                    packet.header.sequence_number,
                    packet.header.timestamp,
                    packet.payload.len(),
                    now_ms,
                    now_ms * 1_000,
                );
                valid += 1;
            }
            now_ms += 10;
        }
    }
    assert_eq!(valid, 10);
    assert_eq!(slot.stats.packets_received, 10);
    assert_eq!(slot.stats.packets_lost, 0);
    assert_eq!(slot.page_count, 1);
}
