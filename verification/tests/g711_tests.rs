use paging_core::codec::{AudioDecoder, AudioEncoder, CodecType};
use paging_core::g711::{G711AlawCodec, G711UlawCodec};

#[test]
fn test_ulaw_roundtrip() {
    let samples: Vec<i16> = vec![0, 100, 1000, 10000, -100, -1000, -10000, 32767, -32768];

    for &original in &samples {
        let encoded = G711UlawCodec::encode_sample(original);
        let decoded = G711UlawCodec::decode_sample(encoded);
        let error = (original as i32 - decoded as i32).abs();
        assert!(
            error < 1000,
            "Too much error for {}: decoded to {}, error {}",
            original,
            decoded,
            error
        );
    }
}

#[test]
fn test_alaw_roundtrip() {
    let samples: Vec<i16> = vec![0, 100, 1000, 10000, -100, -1000, -10000, 32767, -32768];

    for &original in &samples {
        let encoded = G711AlawCodec::encode_sample(original);
        let decoded = G711AlawCodec::decode_sample(encoded);
        let error = (original as i32 - decoded as i32).abs();
        assert!(
            error < 1000,
            "Too much error for {}: decoded to {}, error {}",
            original,
            decoded,
            error
        );
    }
}

#[test]
fn test_ulaw_decode_encode_batch() {
    let mut codec = G711UlawCodec::new();
    let original: Vec<i16> = (0..160).map(|i| (i * 200) as i16).collect();

    let encoded = AudioEncoder::encode(&mut codec, &original).unwrap();
    assert_eq!(encoded.len(), 160);

    let decoded = AudioDecoder::decode(&mut codec, &encoded).unwrap();
    assert_eq!(decoded.len(), 160);
}

#[test]
fn g711_test_codec_properties() {
    let ulaw = G711UlawCodec::new();
    assert_eq!(AudioDecoder::sample_rate(&ulaw), 8000);
    assert_eq!(AudioDecoder::channels(&ulaw), 1);
    assert_eq!(AudioDecoder::codec_type(&ulaw), CodecType::G711Ulaw);

    let alaw = G711AlawCodec::new();
    assert_eq!(AudioDecoder::sample_rate(&alaw), 8000);
    assert_eq!(AudioDecoder::channels(&alaw), 1);
    assert_eq!(AudioDecoder::codec_type(&alaw), CodecType::G711Alaw);
}

#[test]
fn test_g711_roundtrip_error_full_range() {
    // Both laws stay within the documented error bound over the whole
    // 16-bit range.
    let mut s: i32 = i16::MIN as i32;
    while s <= i16::MAX as i32 {
        let v = s as i16;
        let du = G711UlawCodec::decode_sample(G711UlawCodec::encode_sample(v)) as i32;
        assert!((du - s).abs() < 1000, "u-law error at {}: {}", s, du - s);
        let da = G711AlawCodec::decode_sample(G711AlawCodec::encode_sample(v)) as i32;
        assert!((da - s).abs() < 1000, "A-law error at {}: {}", s, da - s);
        s += 1;
    }
}
