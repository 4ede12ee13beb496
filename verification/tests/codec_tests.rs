use paging_core::codec::CodecType;
use paging_core::factory::{create_decoder, create_decoder_for_payload_type, create_encoder};

#[test]
fn test_create_decoder_ulaw() {
    let decoder = create_decoder(CodecType::G711Ulaw);
    assert!(decoder.is_ok());
    assert_eq!(decoder.unwrap().codec_type(), CodecType::G711Ulaw);
}

#[test]
fn test_create_decoder_alaw() {
    let decoder = create_decoder(CodecType::G711Alaw);
    assert!(decoder.is_ok());
    assert_eq!(decoder.unwrap().codec_type(), CodecType::G711Alaw);
}

#[test]
fn test_create_decoder_by_payload_type() {
    // PCMU
    let decoder = create_decoder_for_payload_type(0);
    assert!(decoder.is_ok());
    assert_eq!(decoder.unwrap().codec_type(), CodecType::G711Ulaw);

    // PCMA
    let decoder = create_decoder_for_payload_type(8);
    assert!(decoder.is_ok());
    assert_eq!(decoder.unwrap().codec_type(), CodecType::G711Alaw);
}

#[test]
fn test_create_encoder() {
    let encoder = create_encoder(CodecType::G711Ulaw);
    assert!(encoder.is_ok());
}

#[test]
fn test_create_decoder_unmapped_payload_type() {
    let decoder = create_decoder_for_payload_type(57);
    assert!(decoder.is_err());
}

#[test]
fn test_codec_type_from_str() {
    assert_eq!(CodecType::from_str("g711ulaw"), Some(CodecType::G711Ulaw));
    assert_eq!(CodecType::from_str("PCMU"), Some(CodecType::G711Ulaw));
    assert_eq!(CodecType::from_str("ALaw"), Some(CodecType::G711Alaw));
    assert_eq!(CodecType::from_str("g722"), Some(CodecType::G722));
    assert_eq!(CodecType::from_str("opus"), Some(CodecType::Opus));
    assert_eq!(CodecType::from_str("L16"), Some(CodecType::L16));
    assert_eq!(CodecType::from_str("mp3"), None);
}

#[test]
fn test_codec_type_tables() {
    assert_eq!(CodecType::G711Ulaw.payload_type(), 0);
    assert_eq!(CodecType::G711Alaw.payload_type(), 8);
    assert_eq!(CodecType::G722.sample_rate(), 16000);
    assert_eq!(CodecType::Opus.channels(), 2);
    assert_eq!(CodecType::from_payload_type(11), Some(CodecType::L16));
    assert_eq!(CodecType::from_payload_type(96), Some(CodecType::Opus));
    assert_eq!(CodecType::from_payload_type(57), None);
    assert_eq!(CodecType::L16.name(), "Linear PCM");
}
