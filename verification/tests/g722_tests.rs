use paging_core::codec::AudioEncoder;
use paging_core::g722::G722Encoder;

#[test]
fn test_g722_encoder_basic() {
    let mut encoder = G722Encoder::new();

    // 320 samples (20 ms at 16 kHz).
    let samples: Vec<i16> = (0..320)
        .map(|i| ((i as f64 * 0.1).sin() * 10000.0) as i16)
        .collect();

    let encoded = AudioEncoder::encode(&mut encoder, &samples).unwrap();

    // Two samples per byte: 160 bytes.
    assert_eq!(encoded.len(), 160);
}

#[test]
fn test_g722_silence() {
    let mut encoder = G722Encoder::new();

    let silence: Vec<i16> = vec![0; 320];
    let encoded = AudioEncoder::encode(&mut encoder, &silence).unwrap();

    assert_eq!(encoded.len(), 160);
}

#[test]
fn test_g722_odd_sample_dropped() {
    let mut encoder = G722Encoder::new();

    // An odd trailing sample does not produce a byte.
    let samples: Vec<i16> = vec![100; 321];
    let encoded = encoder.encode_frame(&samples);
    assert_eq!(encoded.len(), 160);
}
