//! Codec identities, the shared error type, and the capability traits.

use vstd::prelude::*;
use vstd::string::StringSliceAdditionalSpecFns;

verus! {

/// Errors of the codec layer.
#[derive(Debug, Clone)]
pub enum CodecError {
    /// No codec is mapped to this RTP payload type.
    UnsupportedPayloadType(u8),
    /// The input bytes are not a whole frame of the codec.
    InvalidFrame(String),
    /// Encoding failed.
    EncodeError(String),
    /// Decoding failed.
    DecodeError(String),
    /// The codec could not be constructed.
    InitError(String),
    /// A frame of the wrong size was handed in.
    InvalidFrameSize { expected: usize, got: usize },
}

/// The codecs the pipeline knows.
#[derive(Debug, Clone, Copy, PartialEq, Eq, Structural, Hash)]
pub enum CodecType {
    G711Ulaw,
    G711Alaw,
    G722,
    Opus,
    L16,
}

impl CodecType {
    /// The RTP payload type this codec is sent under.
    pub fn payload_type(&self) -> (r: u8)
        ensures
            r == self.spec_payload_type(),
    {
        match self {
            CodecType::G711Ulaw => 0,
            CodecType::G711Alaw => 8,
            CodecType::G722 => 9,
            CodecType::Opus => 96,
            CodecType::L16 => 11,
        }
    }

    /// The payload type as a spec-level value.
    pub open spec fn spec_payload_type(self) -> u8 {
        match self {
            CodecType::G711Ulaw => 0,
            CodecType::G711Alaw => 8,
            CodecType::G722 => 9,
            CodecType::Opus => 96,
            CodecType::L16 => 11,
        }
    }

    /// The native sample rate of the codec.
    pub fn sample_rate(&self) -> (r: u32)
        ensures
            r == self.spec_sample_rate(),
    {
        match self {
            CodecType::G711Ulaw | CodecType::G711Alaw => 8000,
            CodecType::G722 => 16000,
            CodecType::Opus => 48000,
            CodecType::L16 => 44100,
        }
    }

    /// The sample rate as a spec-level value.
    pub open spec fn spec_sample_rate(self) -> u32 {
        match self {
            CodecType::G711Ulaw | CodecType::G711Alaw => 8000,
            CodecType::G722 => 16000,
            CodecType::Opus => 48000,
            CodecType::L16 => 44100,
        }
    }

    /// The channel count of the codec.
    pub fn channels(&self) -> (r: u8)
        ensures
            r == self.spec_channels(),
    {
        match self {
            CodecType::G711Ulaw | CodecType::G711Alaw | CodecType::G722 | CodecType::L16 => 1,
            CodecType::Opus => 2,
        }
    }

    /// The channel count as a spec-level value.
    pub open spec fn spec_channels(self) -> u8 {
        match self {
            CodecType::G711Ulaw | CodecType::G711Alaw | CodecType::G722 | CodecType::L16 => 1,
            CodecType::Opus => 2,
        }
    }

    /// A human-readable name.
    pub fn name(&self) -> (r: &'static str)
        ensures
            r@ == self.spec_name()@,
    {
        match self {
            CodecType::G711Ulaw => "G.711 u-law",
            CodecType::G711Alaw => "G.711 A-law",
            CodecType::G722 => "G.722",
            CodecType::Opus => "Opus",
            CodecType::L16 => "Linear PCM",
        }
    }

    /// The name as a spec-level value.
    pub open spec fn spec_name(self) -> &'static str {
        match self {
            CodecType::G711Ulaw => "G.711 u-law",
            CodecType::G711Alaw => "G.711 A-law",
            CodecType::G722 => "G.722",
            CodecType::Opus => "Opus",
            CodecType::L16 => "Linear PCM",
        }
    }

    /// Parses a codec name, ignoring ASCII case.
    pub fn from_str(s: &str) -> (r: Option<CodecType>)
        ensures
            r == spec_codec_from_name(s.spec_bytes()),
    {
        let b = s.as_bytes();
        if eq_ignore_ascii_case(b, "g711ulaw".as_bytes()) || eq_ignore_ascii_case(
            b,
            "pcmu".as_bytes(),
        ) || eq_ignore_ascii_case(b, "ulaw".as_bytes()) {
            Some(CodecType::G711Ulaw)
        } else if eq_ignore_ascii_case(b, "g711alaw".as_bytes()) || eq_ignore_ascii_case(
            b,
            "pcma".as_bytes(),
        ) || eq_ignore_ascii_case(b, "alaw".as_bytes()) {
            Some(CodecType::G711Alaw)
        } else if eq_ignore_ascii_case(b, "g722".as_bytes()) {
            Some(CodecType::G722)
        } else if eq_ignore_ascii_case(b, "opus".as_bytes()) {
            Some(CodecType::Opus)
        } else if eq_ignore_ascii_case(b, "l16".as_bytes()) || eq_ignore_ascii_case(
            b,
            "pcm".as_bytes(),
        ) || eq_ignore_ascii_case(b, "linear".as_bytes()) {
            Some(CodecType::L16)
        } else {
            None
        }
    }

    /// The codec that an RTP payload type denotes; dynamic types are taken as Opus.
    pub fn from_payload_type(pt: u8) -> (r: Option<CodecType>)
        ensures
            r == spec_codec_from_payload_type(pt),
    {
        match pt {
            0 => Some(CodecType::G711Ulaw),
            8 => Some(CodecType::G711Alaw),
            9 => Some(CodecType::G722),
            10 | 11 => Some(CodecType::L16),
            96..=127 => Some(CodecType::Opus),
            _ => None,
        }
    }
}

/// The payload-type table of the codec map.
pub open spec fn spec_codec_from_payload_type(pt: u8) -> Option<CodecType> {
    if pt == 0 {
        Some(CodecType::G711Ulaw)
    } else if pt == 8 {
        Some(CodecType::G711Alaw)
    } else if pt == 9 {
        Some(CodecType::G722)
    } else if pt == 10 || pt == 11 {
        Some(CodecType::L16)
    } else if 96 <= pt <= 127 {
        Some(CodecType::Opus)
    } else {
        None
    }
}

/// Folds an ASCII upper-case byte to lower case; other bytes pass unchanged.
pub open spec fn spec_fold_byte(b: u8) -> u8 {
    if 65 <= b <= 90 {
        (b + 32) as u8
    } else {
        b
    }
}

/// Byte sequences that are equal once ASCII case is folded.
pub open spec fn spec_eq_ignore_case(a: Seq<u8>, b: Seq<u8>) -> bool {
    a.map_values(|x: u8| spec_fold_byte(x)) == b.map_values(|x: u8| spec_fold_byte(x))
}

/// Compares two byte strings, ignoring ASCII case.
pub fn eq_ignore_ascii_case(a: &[u8], b: &[u8]) -> (r: bool)
    ensures
        r == spec_eq_ignore_case(a@, b@),
{
    let ghost fa = a@.map_values(|x: u8| spec_fold_byte(x));
    let ghost fb = b@.map_values(|x: u8| spec_fold_byte(x));
    if a.len() != b.len() {
        assert(fa.len() != fb.len());
        return false;
    }
    let mut i: usize = 0;
    while i < a.len()
        invariant
            i <= a.len(),
            a@.len() == b@.len(),
            fa == a@.map_values(|x: u8| spec_fold_byte(x)),
            fb == b@.map_values(|x: u8| spec_fold_byte(x)),
            forall|j: int| 0 <= j < i ==> fa[j] == fb[j],
        decreases a.len() - i,
    {
        let mut x = a[i];
        let mut y = b[i];
        if 65 <= x && x <= 90 {
            x = x + 32;
        }
        if 65 <= y && y <= 90 {
            y = y + 32;
        }
        assert(x == fa[i as int] && y == fb[i as int]);
        if x != y {
            return false;
        }
        i = i + 1;
    }
    assert(fa =~= fb);
    true
}

/// The codec a (case-folded) name denotes, or `None` for an unknown name.
pub open spec fn spec_codec_from_name(s: Seq<u8>) -> Option<CodecType> {
    if spec_eq_ignore_case(s, "g711ulaw".spec_bytes()) || spec_eq_ignore_case(
        s,
        "pcmu".spec_bytes(),
    ) || spec_eq_ignore_case(s, "ulaw".spec_bytes()) {
        Some(CodecType::G711Ulaw)
    } else if spec_eq_ignore_case(s, "g711alaw".spec_bytes()) || spec_eq_ignore_case(
        s,
        "pcma".spec_bytes(),
    ) || spec_eq_ignore_case(s, "alaw".spec_bytes()) {
        Some(CodecType::G711Alaw)
    } else if spec_eq_ignore_case(s, "g722".spec_bytes()) {
        Some(CodecType::G722)
    } else if spec_eq_ignore_case(s, "opus".spec_bytes()) {
        Some(CodecType::Opus)
    } else if spec_eq_ignore_case(s, "l16".spec_bytes()) || spec_eq_ignore_case(
        s,
        "pcm".spec_bytes(),
    ) || spec_eq_ignore_case(s, "linear".spec_bytes()) {
        Some(CodecType::L16)
    } else {
        None
    }
}

/// Decoders turn wire bytes into 16-bit PCM samples.
pub trait AudioDecoder: Sized {
    /// The native sample rate of the decoded audio.
    spec fn spec_dec_sample_rate(&self) -> u32;

    /// The channel count of the decoded audio.
    spec fn spec_dec_channels(&self) -> u8;

    /// The codec this decoder implements.
    spec fn spec_dec_codec_type(&self) -> CodecType;

    /// Decodes one packet's payload to PCM samples.
    fn decode(&mut self, input: &[u8]) -> Result<Vec<i16>, CodecError>;

    /// The native sample rate of the decoded audio.
    fn sample_rate(&self) -> (r: u32)
        ensures
            r == self.spec_dec_sample_rate(),
    ;

    /// The channel count of the decoded audio.
    fn channels(&self) -> (r: u8)
        ensures
            r == self.spec_dec_channels(),
    ;

    /// The codec this decoder implements.
    fn codec_type(&self) -> (r: CodecType)
        ensures
            r == self.spec_dec_codec_type(),
    ;
}

/// Encoders turn 16-bit PCM samples into wire bytes.
pub trait AudioEncoder: Sized {
    /// The sample rate the encoder expects.
    spec fn spec_enc_sample_rate(&self) -> u32;

    /// The channel count the encoder expects.
    spec fn spec_enc_channels(&self) -> u8;

    /// The codec this encoder implements.
    spec fn spec_enc_codec_type(&self) -> CodecType;

    /// The frame size in samples per channel.
    spec fn spec_enc_frame_size(&self) -> usize;

    /// Parameters under which the frame size is representable.
    spec fn spec_enc_wf(&self) -> bool;

    /// Encodes PCM samples to wire bytes.
    fn encode(&mut self, samples: &[i16]) -> Result<Vec<u8>, CodecError>
        requires
            old(self).spec_enc_wf(),
    ;

    /// The sample rate the encoder expects.
    fn sample_rate(&self) -> (r: u32)
        ensures
            r == self.spec_enc_sample_rate(),
    ;

    /// The channel count the encoder expects.
    fn channels(&self) -> (r: u8)
        ensures
            r == self.spec_enc_channels(),
    ;

    /// The codec this encoder implements.
    fn codec_type(&self) -> (r: CodecType)
        ensures
            r == self.spec_enc_codec_type(),
    ;

    /// The frame size in samples per channel.
    fn frame_size(&self) -> (r: usize)
        requires
            self.spec_enc_wf(),
        ensures
            r == self.spec_enc_frame_size(),
    ;
}

/// Codec parameters, for negotiation.
#[derive(Debug, Clone)]
pub struct CodecInfo {
    pub codec_type: CodecType,
    pub sample_rate: u32,
    pub channels: u8,
    pub bitrate: Option<u32>,
}

} // verus!
