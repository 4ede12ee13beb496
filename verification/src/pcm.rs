//! Linear PCM (L16): big-endian 16-bit marshalling.

use vstd::prelude::*;
use crate::codec::{AudioDecoder, AudioEncoder, CodecError, CodecType};
use crate::wire::be16;

verus! {

/// The sample that two big-endian bytes carry.
pub open spec fn spec_l16_sample(b0: u8, b1: u8) -> i16 {
    be16(b0, b1) as i16
}

/// The samples a byte sequence of even length carries.
pub open spec fn spec_l16_decode(bytes: Seq<u8>) -> Seq<i16> {
    Seq::new((bytes.len() / 2) as nat, |i: int| spec_l16_sample(bytes[2 * i], bytes[2 * i + 1]))
}

/// The bytes a sample sequence marshals to: two big-endian bytes per sample.
pub open spec fn spec_l16_encode(samples: Seq<i16>) -> Seq<u8> {
    Seq::new(
        (samples.len() * 2) as nat,
        |i: int|
            if i % 2 == 0 {
                ((samples[i / 2] as u16) / 256) as u8
            } else {
                ((samples[i / 2] as u16) % 256) as u8
            },
    )
}

/// Linear PCM (L16) codec: big-endian 16-bit signed samples.
pub struct L16Codec {
    pub sample_rate: u32,
    pub channels: u8,
}

impl L16Codec {
    pub fn new(sample_rate: u32, channels: u8) -> (r: Self)
        ensures
            r.sample_rate == sample_rate,
            r.channels == channels,
    {
        L16Codec { sample_rate, channels }
    }

    /// A standard mono 44.1 kHz L16 codec.
    pub fn standard_mono() -> (r: Self)
        ensures
            r.sample_rate == 44100,
            r.channels == 1,
    {
        Self::new(44100, 1)
    }

    /// A standard stereo 44.1 kHz L16 codec.
    pub fn standard_stereo() -> (r: Self)
        ensures
            r.sample_rate == 44100,
            r.channels == 2,
    {
        Self::new(44100, 2)
    }

    /// An 8 kHz mono codec, common for telephony.
    pub fn telephony() -> (r: Self)
        ensures
            r.sample_rate == 8000,
            r.channels == 1,
    {
        Self::new(8000, 1)
    }
}

impl AudioDecoder for L16Codec {
    open spec fn spec_dec_sample_rate(&self) -> u32 {
        self.sample_rate
    }

    open spec fn spec_dec_channels(&self) -> u8 {
        self.channels
    }

    open spec fn spec_dec_codec_type(&self) -> CodecType {
        CodecType::L16
    }

    fn decode(&mut self, input: &[u8]) -> (r: Result<Vec<i16>, CodecError>)
        ensures
            input@.len() % 2 == 0 ==> (r matches Ok(v) && v@ == spec_l16_decode(input@)),
            input@.len() % 2 != 0 ==> (r matches Err(CodecError::InvalidFrame(_))),
            *final(self) == *old(self),
    {
        if input.len() % 2 != 0 {
            return Err(
                CodecError::InvalidFrame(String::from_str("L16 data must have even number of bytes")),
            );
        }
        let ghost target = spec_l16_decode(input@);
        let n = input.len() / 2;
        let mut out: Vec<i16> = Vec::new();
        let mut i: usize = 0;
        while i < n
            invariant
                i <= n,
                n == input@.len() / 2,
                input@.len() % 2 == 0,
                target == spec_l16_decode(input@),
                out@.len() == i,
                forall|j: int| 0 <= j < i ==> out@[j] == target[j],
            decreases n - i,
        {
            let hi = input[2 * i];
            let lo = input[2 * i + 1];
            let v: u16 = hi as u16 * 256 + lo as u16;
            out.push(v as i16);
            i = i + 1;
        }
        assert(out@ =~= target);
        Ok(out)
    }

    fn sample_rate(&self) -> u32 {
        self.sample_rate
    }

    fn channels(&self) -> u8 {
        self.channels
    }

    fn codec_type(&self) -> CodecType {
        CodecType::L16
    }
}

impl AudioEncoder for L16Codec {
    open spec fn spec_enc_sample_rate(&self) -> u32 {
        self.sample_rate
    }

    open spec fn spec_enc_channels(&self) -> u8 {
        self.channels
    }

    open spec fn spec_enc_codec_type(&self) -> CodecType {
        CodecType::L16
    }

    open spec fn spec_enc_frame_size(&self) -> usize {
        (self.sample_rate as int * 20 / 1000 * self.channels as int) as usize
    }

    open spec fn spec_enc_wf(&self) -> bool {
        self.sample_rate as int * 20 / 1000 * self.channels as int <= usize::MAX
    }

    fn encode(&mut self, samples: &[i16]) -> (r: Result<Vec<u8>, CodecError>)
        ensures
            r matches Ok(v) && v@ == spec_l16_encode(samples@),
            *final(self) == *old(self),
    {
        let ghost target = spec_l16_encode(samples@);
        let mut out: Vec<u8> = Vec::new();
        let mut i: usize = 0;
        while i < samples.len()
            invariant
                i <= samples.len(),
                target == spec_l16_encode(samples@),
                out@.len() == 2 * i,
                forall|j: int| 0 <= j < 2 * i ==> out@[j] == target[j],
            decreases samples.len() - i,
        {
            let v: u16 = samples[i] as u16;
            out.push((v / 256) as u8);
            out.push((v % 256) as u8);
            i = i + 1;
        }
        assert(out@ =~= target);
        Ok(out)
    }

    fn sample_rate(&self) -> u32 {
        self.sample_rate
    }

    fn channels(&self) -> u8 {
        self.channels
    }

    fn codec_type(&self) -> CodecType {
        CodecType::L16
    }

    fn frame_size(&self) -> usize {
        let per_second: u64 = self.sample_rate as u64 * 20 / 1000;
        let total: u64 = per_second * self.channels as u64;
        total as usize
    }
}

/// Marshalling samples to big-endian bytes and back returns the samples.
pub proof fn lemma_l16_roundtrip(samples: Seq<i16>)
    ensures
        spec_l16_decode(spec_l16_encode(samples)) == samples,
{
    let enc = spec_l16_encode(samples);
    let dec = spec_l16_decode(enc);
    assert(forall|s: i16| #[trigger] (((s as u16) / 256 * 256 + (s as u16) % 256) as u16) as i16
        == s) by (bit_vector);
    assert forall|i: int| 0 <= i < samples.len() implies dec[i] == samples[i] by {
        let v = samples[i] as u16;
        assert(enc[2 * i] == (v / 256) as u8);
        assert(enc[2 * i + 1] == (v % 256) as u8);
        assert(be16(enc[2 * i], enc[2 * i + 1]) == (v / 256 * 256 + v % 256) as u16);
        assert(((v / 256 * 256 + v % 256) as u16) as i16 == samples[i]);
    };
    assert(dec =~= samples);
}

} // verus!
