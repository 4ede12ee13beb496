use paging_core::codec::{AudioDecoder, AudioEncoder};
use paging_core::pcm::L16Codec;

#[test]
fn test_l16_roundtrip() {
    let mut codec = L16Codec::new(8000, 1);

    let original: Vec<i16> = vec![0, 1000, -1000, 32767, -32768, 12345, -12345];

    let encoded = AudioEncoder::encode(&mut codec, &original).unwrap();
    assert_eq!(encoded.len(), original.len() * 2);

    let decoded = AudioDecoder::decode(&mut codec, &encoded).unwrap();
    assert_eq!(decoded, original);
}

#[test]
fn test_l16_big_endian() {
    let mut codec = L16Codec::new(8000, 1);

    let samples = vec![0x1234i16];
    let encoded = AudioEncoder::encode(&mut codec, &samples).unwrap();
    assert_eq!(encoded, vec![0x12, 0x34]);
}

#[test]
fn test_l16_odd_bytes() {
    let mut codec = L16Codec::new(8000, 1);

    let result = AudioDecoder::decode(&mut codec, &[0x00, 0x01, 0x02]);
    assert!(result.is_err());
}

#[test]
fn pcm_test_codec_properties() {
    let mono = L16Codec::standard_mono();
    assert_eq!(AudioDecoder::sample_rate(&mono), 44100);
    assert_eq!(AudioDecoder::channels(&mono), 1);

    let stereo = L16Codec::standard_stereo();
    assert_eq!(AudioDecoder::sample_rate(&stereo), 44100);
    assert_eq!(AudioDecoder::channels(&stereo), 2);

    let telephony = L16Codec::telephony();
    assert_eq!(AudioDecoder::sample_rate(&telephony), 8000);
    assert_eq!(AudioDecoder::channels(&telephony), 1);
}
