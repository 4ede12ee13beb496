use paging_core::stats::PageStats;

#[test]
fn test_loss_gap_counts() {
    // A gap of g with 1 < g < 1000 loses exactly g - 1 packets.
    let mut stats = PageStats::new();
    stats.update(1, 160, 160, 0);
    stats.update(7, 7 * 160, 160, 20_000);
    assert_eq!(stats.packets_lost, 5);
    assert_eq!(stats.packets_received, 2);
}

#[test]
fn test_loss_large_gap_is_reset() {
    // A gap of 1000 or more reads as a reset, not loss.
    let mut stats = PageStats::new();
    stats.update(1, 160, 160, 0);
    stats.update(1001, 160_000, 160, 20_000);
    assert_eq!(stats.packets_lost, 0);
}

#[test]
fn test_loss_duplicate_and_reorder() {
    // Duplicates (gap 0) and reordering (wrapped huge gap) lose nothing.
    let mut stats = PageStats::new();
    stats.update(10, 1600, 160, 0);
    stats.update(10, 1600, 160, 20_000);
    stats.update(9, 1440, 160, 40_000);
    assert_eq!(stats.packets_lost, 0);
    assert_eq!(stats.packets_received, 3);
}

#[test]
fn test_loss_wraparound_sequence() {
    // The successor across the 16-bit wrap loses nothing.
    let mut stats = PageStats::new();
    stats.update(65535, 0, 160, 0);
    stats.update(0, 160, 160, 20_000);
    assert_eq!(stats.packets_lost, 0);
}

#[test]
fn test_monotonic_stream_counts() {
    // An ideal stream: sequence +1, timestamp +160, arrivals exactly
    // 20 ms apart. All packets counted, none lost, jitter stays zero.
    let mut stats = PageStats::new();
    let mut arrival: u64 = 0;
    for i in 0..50u16 {
        stats.update(100 + i, 160 * (i as u32), 160, arrival);
        arrival += 20_000;
    }
    assert_eq!(stats.packets_received, 50);
    assert_eq!(stats.packets_lost, 0);
    assert_eq!(stats.jitter_accum_x16, 0);
    assert_eq!(stats.jitter_ms(), 0);
    assert_eq!(stats.bytes_received, 50 * 160);
    assert_eq!(stats.expected_packets(), 50);
}

#[test]
fn test_jitter_grows_with_uneven_arrivals() {
    // Arrivals alternating early and late raise the estimate.
    let mut stats = PageStats::new();
    stats.update(1, 0, 160, 0);
    stats.update(2, 160, 160, 40_000);
    assert!(stats.jitter_accum_x16 > 0);
}
