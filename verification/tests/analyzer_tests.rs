use paging_core::analyzer::{AudioAnalyzer, AudioStats};

#[test]
fn test_silence_detection() {
    let mut analyzer = AudioAnalyzer::new(8000);
    let silence: Vec<i16> = vec![0; 160];
    let analysis = analyzer.analyze(&silence);
    assert!(analysis.is_silence);
    assert_eq!(analysis.sum_squares, 0);
}

#[test]
fn test_clipping_detection() {
    let mut analyzer = AudioAnalyzer::new(8000);
    let mut samples: Vec<i16> = vec![0; 160];
    samples[0] = 32767;
    samples[1] = 32767;
    samples[2] = -32768;

    let analysis = analyzer.analyze(&samples);
    assert_eq!(analysis.clipped_samples, 3);
}

#[test]
fn test_glitch_detection() {
    let mut analyzer = AudioAnalyzer::new(8000);
    let mut samples: Vec<i16> = vec![0; 160];
    // A huge jump, as packet loss or corruption would produce.
    samples[50] = 0;
    samples[51] = 25000;

    let analysis = analyzer.analyze(&samples);
    assert!(analysis.glitch_count >= 1);
}

#[test]
fn test_zero_crossings_of_square_wave() {
    let mut analyzer = AudioAnalyzer::new(8000);
    // +/- alternating: every sample after the first crosses zero.
    let samples: Vec<i16> = (0..160).map(|i| if i % 2 == 0 { 1000 } else { -1000 }).collect();
    let analysis = analyzer.analyze(&samples);
    assert_eq!(analysis.zero_crossings, 159);
    assert!(!analysis.is_silence);
}

#[test]
fn test_loud_block_not_silence() {
    let mut analyzer = AudioAnalyzer::new(8000);
    let samples: Vec<i16> = vec![10000; 160];
    let analysis = analyzer.analyze(&samples);
    assert!(!analysis.is_silence);
    // One repeated value: every sample after the first repeats, and the
    // first repeats nothing because the carried previous sample is the
    // block's own first sample on the first call.
    assert_eq!(analysis.repeated_samples, 160);
}

#[test]
fn test_fft_window_accumulates() {
    let mut analyzer = AudioAnalyzer::new(8000);
    let block: Vec<i16> = (0..160).map(|i| i as i16).collect();
    analyzer.analyze(&block);
    assert!(analyzer.fft_window().is_none());
    analyzer.analyze(&block);
    assert!(analyzer.fft_window().is_none());
    analyzer.analyze(&block);
    analyzer.analyze(&block);
    let window = analyzer.fft_window().unwrap();
    assert_eq!(window.len(), 512);
    // The window holds the most recent 512 samples.
    assert_eq!(window[511], 159);
}

#[test]
fn test_silent_frames_do_not_poison_rms_average() {
    let mut analyzer = AudioAnalyzer::new(8000);
    let mut stats = AudioStats::new();

    let silence: Vec<i16> = vec![0; 160];
    let a1 = analyzer.analyze(&silence);
    stats.update(&a1, a1.sample_count);

    let loud: Vec<i16> = vec![20000; 160];
    let a2 = analyzer.analyze(&loud);
    stats.update(&a2, a2.sample_count);

    assert_eq!(stats.frame_count, 2);
    assert_eq!(stats.silent_frames, 1);
    // Only the energetic frame counts toward the RMS average.
    assert_eq!(stats.rms_frames, 1);
    assert_eq!(stats.peak_rms_num, a2.sum_squares);
    assert_eq!(stats.peak_rms_den, 160);
    assert_eq!(stats.max_peak, 20000);
}

#[test]
fn test_dominant_frequency_histogram() {
    let mut stats = AudioStats::new();
    let mut analyzer = AudioAnalyzer::new(8000);
    let block: Vec<i16> = vec![1000; 160];

    // Two frames near 1 kHz, one near 440 Hz: the 1 kHz bin wins and its
    // centre is reported.
    let mut a = analyzer.analyze(&block);
    a.dominant_freq_hz = 1000;
    stats.update(&a, a.sample_count);
    let mut b = analyzer.analyze(&block);
    b.dominant_freq_hz = 1015;
    stats.update(&b, b.sample_count);
    let mut c = analyzer.analyze(&block);
    c.dominant_freq_hz = 440;
    stats.update(&c, c.sample_count);

    assert_eq!(stats.dominant_freq_hz(), 1025);
}

#[test]
fn test_reset_clears_carried_state() {
    let mut analyzer = AudioAnalyzer::new(8000);
    let block: Vec<i16> = vec![123; 512];
    analyzer.analyze(&block);
    assert!(analyzer.fft_window().is_some());
    analyzer.reset();
    assert!(analyzer.fft_window().is_none());
}
