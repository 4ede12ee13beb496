//! Codec factories: a tagged decoder/encoder value per codec.
//!
//! The G.722 decode path and the Opus codec of the surrounding tool run
//! through outside components that cannot be constructed here; asking for
//! them reports an initialisation error, and the tool substitutes its own.

use vstd::prelude::*;
use crate::codec::{AudioDecoder, AudioEncoder, CodecError, CodecType, spec_codec_from_payload_type};
use crate::g711::{G711AlawCodec, G711UlawCodec, spec_alaw_decode, spec_alaw_encode, spec_ulaw_decode, spec_ulaw_encode};
use crate::g722::G722Encoder;
use crate::pcm::{L16Codec, spec_l16_decode, spec_l16_encode};

verus! {

/// A decoder for one of the built-in codecs.
pub enum Decoder {
    Ulaw(G711UlawCodec),
    Alaw(G711AlawCodec),
    L16(L16Codec),
}

impl Decoder {
    /// The codec this decoder implements.
    pub open spec fn spec_codec_type(&self) -> CodecType {
        match self {
            Decoder::Ulaw(_) => CodecType::G711Ulaw,
            Decoder::Alaw(_) => CodecType::G711Alaw,
            Decoder::L16(_) => CodecType::L16,
        }
    }

    /// Decodes one packet's payload to PCM samples.
    pub fn decode(&mut self, input: &[u8]) -> (r: Result<Vec<i16>, CodecError>)
        ensures
            old(self) matches Decoder::Ulaw(_) ==> (r matches Ok(v) && v@ == input@.map_values(
                |b: u8| spec_ulaw_decode(b) as i16,
            )),
            old(self) matches Decoder::Alaw(_) ==> (r matches Ok(v) && v@ == input@.map_values(
                |b: u8| spec_alaw_decode(b) as i16,
            )),
            old(self) matches Decoder::L16(_) && input@.len() % 2 == 0 ==> (r matches Ok(v) && v@
                == spec_l16_decode(input@)),
            old(self) matches Decoder::L16(_) && input@.len() % 2 != 0 ==> (r matches Err(
                CodecError::InvalidFrame(_),
            )),
            final(self).spec_codec_type() == old(self).spec_codec_type(),
    {
        match self {
            Decoder::Ulaw(c) => c.decode(input),
            Decoder::Alaw(c) => c.decode(input),
            Decoder::L16(c) => c.decode(input),
        }
    }

    /// The native sample rate of the decoded audio.
    pub fn sample_rate(&self) -> (r: u32)
        ensures
            r == match self {
                Decoder::Ulaw(_) => 8000u32,
                Decoder::Alaw(_) => 8000u32,
                Decoder::L16(c) => c.sample_rate,
            },
    {
        match self {
            Decoder::Ulaw(c) => AudioDecoder::sample_rate(c),
            Decoder::Alaw(c) => AudioDecoder::sample_rate(c),
            Decoder::L16(c) => AudioDecoder::sample_rate(c),
        }
    }

    /// The channel count of the decoded audio.
    pub fn channels(&self) -> (r: u8)
        ensures
            r == match self {
                Decoder::Ulaw(_) => 1u8,
                Decoder::Alaw(_) => 1u8,
                Decoder::L16(c) => c.channels,
            },
    {
        match self {
            Decoder::Ulaw(c) => AudioDecoder::channels(c),
            Decoder::Alaw(c) => AudioDecoder::channels(c),
            Decoder::L16(c) => AudioDecoder::channels(c),
        }
    }

    /// The codec this decoder implements.
    pub fn codec_type(&self) -> (r: CodecType)
        ensures
            r == self.spec_codec_type(),
    {
        match self {
            Decoder::Ulaw(c) => AudioDecoder::codec_type(c),
            Decoder::Alaw(c) => AudioDecoder::codec_type(c),
            Decoder::L16(c) => AudioDecoder::codec_type(c),
        }
    }
}

/// An encoder for one of the built-in codecs.
pub enum Encoder {
    Ulaw(G711UlawCodec),
    Alaw(G711AlawCodec),
    G722(G722Encoder),
    L16(L16Codec),
}

impl Encoder {
    /// The codec this encoder implements.
    pub open spec fn spec_codec_type(&self) -> CodecType {
        match self {
            Encoder::Ulaw(_) => CodecType::G711Ulaw,
            Encoder::Alaw(_) => CodecType::G711Alaw,
            Encoder::G722(_) => CodecType::G722,
            Encoder::L16(_) => CodecType::L16,
        }
    }

    /// Bounds every reachable encoder satisfies.
    pub open spec fn wf(&self) -> bool {
        match self {
            Encoder::G722(e) => e.wf(),
            Encoder::L16(c) => AudioEncoder::spec_enc_wf(c),
            _ => true,
        }
    }

    /// Encodes PCM samples to wire bytes.
    pub fn encode(&mut self, samples: &[i16]) -> (r: Result<Vec<u8>, CodecError>)
        requires
            old(self).wf(),
        ensures
            final(self).wf(),
            final(self).spec_codec_type() == old(self).spec_codec_type(),
            old(self) matches Encoder::Ulaw(_) ==> (r matches Ok(v) && v@ == samples@.map_values(
                |s: i16| spec_ulaw_encode(s),
            )),
            old(self) matches Encoder::Alaw(_) ==> (r matches Ok(v) && v@ == samples@.map_values(
                |s: i16| spec_alaw_encode(s),
            )),
            old(self) matches Encoder::L16(_) ==> (r matches Ok(v) && v@ == spec_l16_encode(
                samples@,
            )),
            (*old(self)) matches Encoder::G722(e) ==> (r matches Ok(v) && (*final(self)) matches
                Encoder::G722(e2) && (e2.band_low, e2.band_high, v@)
                == crate::g722::spec_encode_frame(e.band_low, e.band_high, samples@)),
    {
        match self {
            Encoder::Ulaw(c) => {
                let r = c.encode(samples);
                assert(*self is Ulaw);
                r
            },
            Encoder::Alaw(c) => {
                let r = c.encode(samples);
                assert(*self is Alaw);
                r
            },
            Encoder::G722(c) => {
                let r = c.encode(samples);
                assert(*self is G722);
                r
            },
            Encoder::L16(c) => {
                let r = c.encode(samples);
                assert(*self is L16);
                r
            },
        }
    }

    /// The sample rate the encoder expects.
    pub fn sample_rate(&self) -> (r: u32)
        ensures
            r == match self {
                Encoder::Ulaw(_) => 8000u32,
                Encoder::Alaw(_) => 8000u32,
                Encoder::G722(_) => 16000u32,
                Encoder::L16(c) => c.sample_rate,
            },
    {
        match self {
            Encoder::Ulaw(c) => AudioEncoder::sample_rate(c),
            Encoder::Alaw(c) => AudioEncoder::sample_rate(c),
            Encoder::G722(c) => AudioEncoder::sample_rate(c),
            Encoder::L16(c) => AudioEncoder::sample_rate(c),
        }
    }

    /// The channel count the encoder expects.
    pub fn channels(&self) -> (r: u8)
        ensures
            r == match self {
                Encoder::L16(c) => c.channels,
                _ => 1u8,
            },
    {
        match self {
            Encoder::Ulaw(c) => AudioEncoder::channels(c),
            Encoder::Alaw(c) => AudioEncoder::channels(c),
            Encoder::G722(c) => AudioEncoder::channels(c),
            Encoder::L16(c) => AudioEncoder::channels(c),
        }
    }

    /// The codec this encoder implements.
    pub fn codec_type(&self) -> (r: CodecType)
        ensures
            r == self.spec_codec_type(),
    {
        match self {
            Encoder::Ulaw(c) => AudioEncoder::codec_type(c),
            Encoder::Alaw(c) => AudioEncoder::codec_type(c),
            Encoder::G722(c) => AudioEncoder::codec_type(c),
            Encoder::L16(c) => AudioEncoder::codec_type(c),
        }
    }

    /// The frame size in samples per channel.
    pub fn frame_size(&self) -> (r: usize)
        requires
            self.wf(),
        ensures
            r == match self {
                Encoder::Ulaw(_) => 160usize,
                Encoder::Alaw(_) => 160usize,
                Encoder::G722(_) => 320usize,
                Encoder::L16(c) => AudioEncoder::spec_enc_frame_size(c),
            },
    {
        match self {
            Encoder::Ulaw(c) => AudioEncoder::frame_size(c),
            Encoder::Alaw(c) => AudioEncoder::frame_size(c),
            Encoder::G722(c) => AudioEncoder::frame_size(c),
            Encoder::L16(c) => AudioEncoder::frame_size(c),
        }
    }
}

/// Builds the decoder for a codec. G.722 decoding and Opus run through
/// outside components and report an initialisation error here.
pub fn create_decoder(codec_type: CodecType) -> (r: Result<Decoder, CodecError>)
    ensures
        codec_type == CodecType::G711Ulaw ==> (r matches Ok(d) && d is Ulaw),
        codec_type == CodecType::G711Alaw ==> (r matches Ok(d) && d is Alaw),
        codec_type == CodecType::L16 ==> (r matches Ok(d) && d matches Decoder::L16(c)
            && c.sample_rate == 44100 && c.channels == 1),
        codec_type == CodecType::G722 || codec_type == CodecType::Opus ==> (r matches Err(
            CodecError::InitError(_),
        )),
{
    match codec_type {
        CodecType::G711Ulaw => Ok(Decoder::Ulaw(G711UlawCodec::new())),
        CodecType::G711Alaw => Ok(Decoder::Alaw(G711AlawCodec::new())),
        CodecType::G722 => Err(
            CodecError::InitError(
                String::from_str("G.722 decoding needs the external transcoder"),
            ),
        ),
        CodecType::Opus => Err(
            CodecError::InitError(String::from_str("Opus decoding needs the Opus library")),
        ),
        CodecType::L16 => Ok(Decoder::L16(L16Codec::standard_mono())),
    }
}

/// Builds the decoder an RTP payload type calls for, or reports the type
/// as unsupported.
pub fn create_decoder_for_payload_type(pt: u8) -> (r: Result<Decoder, CodecError>)
    ensures
        spec_codec_from_payload_type(pt) is None ==> (r matches Err(
            CodecError::UnsupportedPayloadType(p),
        ) && p == pt),
        spec_codec_from_payload_type(pt) == Some(CodecType::G711Ulaw) ==> (r matches Ok(d)
            && d is Ulaw),
        spec_codec_from_payload_type(pt) == Some(CodecType::G711Alaw) ==> (r matches Ok(d)
            && d is Alaw),
        spec_codec_from_payload_type(pt) == Some(CodecType::L16) ==> (r matches Ok(d) && d is L16),
{
    match CodecType::from_payload_type(pt) {
        Some(codec_type) => create_decoder(codec_type),
        None => Err(CodecError::UnsupportedPayloadType(pt)),
    }
}

/// Builds the encoder for a codec. The G.722 encoder is the native
/// reference implementation; Opus runs through an outside library and
/// reports an initialisation error here.
pub fn create_encoder(codec_type: CodecType) -> (r: Result<Encoder, CodecError>)
    ensures
        codec_type == CodecType::G711Ulaw ==> (r matches Ok(e) && e is Ulaw),
        codec_type == CodecType::G711Alaw ==> (r matches Ok(e) && e is Alaw),
        codec_type == CodecType::G722 ==> (r matches Ok(e) && e is G722),
        codec_type == CodecType::L16 ==> (r matches Ok(e) && e matches Encoder::L16(c)
            && c.sample_rate == 8000 && c.channels == 1),
        codec_type == CodecType::Opus ==> (r matches Err(CodecError::InitError(_))),
        r matches Ok(e) ==> e.wf(),
{
    match codec_type {
        CodecType::G711Ulaw => Ok(Encoder::Ulaw(G711UlawCodec::new())),
        CodecType::G711Alaw => Ok(Encoder::Alaw(G711AlawCodec::new())),
        CodecType::G722 => Ok(Encoder::G722(G722Encoder::new())),
        CodecType::Opus => Err(
            CodecError::InitError(String::from_str("Opus encoding needs the Opus library")),
        ),
        CodecType::L16 => Ok(Encoder::L16(L16Codec::telephony())),
    }
}

} // verus!
