//! G.711 mu-law and A-law codecs, per-sample tables per ITU-T G.711.

use vstd::prelude::*;
use crate::codec::{AudioDecoder, AudioEncoder, CodecError, CodecType};

verus! {

/// 2 to the power `e`, for the small exponents of the G.711 segment table.
pub open spec fn pow2(e: int) -> int {
    if e <= 0 {
        1
    } else if e == 1 {
        2
    } else if e == 2 {
        4
    } else if e == 3 {
        8
    } else if e == 4 {
        16
    } else if e == 5 {
        32
    } else if e == 6 {
        64
    } else if e == 7 {
        128
    } else if e == 8 {
        256
    } else if e == 9 {
        512
    } else {
        1024
    }
}

/// The linear value a mu-law byte decodes to.
pub open spec fn spec_ulaw_decode(b: u8) -> int {
    let u = 255 - b;
    let e = (u / 16) % 8;
    let m = u % 16;
    let mag = (2 * m + 33) * pow2(e + 2) - 132;
    if u >= 128 {
        -mag
    } else {
        mag
    }
}

/// The mu-law segment a magnitude (with bias added) falls in.
pub open spec fn spec_ulaw_exponent(biased: int) -> int {
    if biased >= 16384 {
        7
    } else if biased >= 8192 {
        6
    } else if biased >= 4096 {
        5
    } else if biased >= 2048 {
        4
    } else if biased >= 1024 {
        3
    } else if biased >= 512 {
        2
    } else if biased >= 256 {
        1
    } else {
        0
    }
}

/// The mu-law byte a linear sample encodes to.
pub open spec fn spec_ulaw_encode(pcm: i16) -> u8 {
    let a = if pcm < 0 {
        -(pcm as int)
    } else {
        pcm as int
    };
    let clipped = if a > 32635 {
        32635
    } else {
        a
    };
    let biased = clipped + 132;
    let e = spec_ulaw_exponent(biased);
    let m = (biased / pow2(e + 3)) % 16;
    let sign: int = if pcm < 0 {
        128
    } else {
        0
    };
    (255 - (sign + 16 * e + m)) as u8
}

/// G.711 mu-law decoder/encoder.
pub struct G711UlawCodec;

impl G711UlawCodec {
    pub fn new() -> (r: Self)
        ensures
            r == (G711UlawCodec {}),
    {
        G711UlawCodec {}
    }

    /// Decodes a single mu-law byte to a linear sample.
    pub fn decode_sample(ulaw: u8) -> (r: i16)
        ensures
            r == spec_ulaw_decode(ulaw),
    {
        let u: u8 = 255 - ulaw;
        let e: u8 = (u / 16) % 8;
        let m: i32 = (u % 16) as i32;
        let scale: i32 = match e {
            0 => 4,
            1 => 8,
            2 => 16,
            3 => 32,
            4 => 64,
            5 => 128,
            6 => 256,
            _ => 512,
        };
        assert(scale == pow2(e as int + 2));
        let mag: i32 = (2 * m + 33) * scale - 132;
        if u >= 128 {
            (-mag) as i16
        } else {
            mag as i16
        }
    }

    /// Encodes a single linear sample to a mu-law byte.
    pub fn encode_sample(pcm: i16) -> (r: u8)
        ensures
            r == spec_ulaw_encode(pcm),
    {
        let a: i32 = if pcm < 0 {
            -(pcm as i32)
        } else {
            pcm as i32
        };
        let clipped: i32 = if a > 32635 {
            32635
        } else {
            a
        };
        let biased: i32 = clipped + 132;
        let e: u8 = if biased >= 16384 {
            7
        } else if biased >= 8192 {
            6
        } else if biased >= 4096 {
            5
        } else if biased >= 2048 {
            4
        } else if biased >= 1024 {
            3
        } else if biased >= 512 {
            2
        } else if biased >= 256 {
            1
        } else {
            0
        };
        let shift: i32 = match e {
            0 => 8,
            1 => 16,
            2 => 32,
            3 => 64,
            4 => 128,
            5 => 256,
            6 => 512,
            _ => 1024,
        };
        assert(shift == pow2(e as int + 3));
        let m: i32 = (biased / shift) % 16;
        let sign: i32 = if pcm < 0 {
            128
        } else {
            0
        };
        (255 - (sign + 16 * e as i32 + m)) as u8
    }
}

impl AudioDecoder for G711UlawCodec {
    open spec fn spec_dec_sample_rate(&self) -> u32 {
        8000
    }

    open spec fn spec_dec_channels(&self) -> u8 {
        1
    }

    open spec fn spec_dec_codec_type(&self) -> CodecType {
        CodecType::G711Ulaw
    }

    fn decode(&mut self, input: &[u8]) -> (r: Result<Vec<i16>, CodecError>)
        ensures
            r matches Ok(v) && v@ == input@.map_values(
                |b: u8| spec_ulaw_decode(b) as i16,
            ),
            *final(self) == *old(self),
    {
        let ghost target = input@.map_values(|b: u8| spec_ulaw_decode(b) as i16);
        let mut out: Vec<i16> = Vec::new();
        let mut i: usize = 0;
        while i < input.len()
            invariant
                i <= input.len(),
                target == input@.map_values(|b: u8| spec_ulaw_decode(b) as i16),
                out@.len() == i,
                forall|j: int| 0 <= j < i ==> out@[j] == target[j],
            decreases input.len() - i,
        {
            out.push(Self::decode_sample(input[i]));
            i = i + 1;
        }
        assert(out@ =~= target);
        Ok(out)
    }

    fn sample_rate(&self) -> u32 {
        8000
    }

    fn channels(&self) -> u8 {
        1
    }

    fn codec_type(&self) -> CodecType {
        CodecType::G711Ulaw
    }
}

impl AudioEncoder for G711UlawCodec {
    open spec fn spec_enc_sample_rate(&self) -> u32 {
        8000
    }

    open spec fn spec_enc_channels(&self) -> u8 {
        1
    }

    open spec fn spec_enc_codec_type(&self) -> CodecType {
        CodecType::G711Ulaw
    }

    open spec fn spec_enc_frame_size(&self) -> usize {
        160
    }

    open spec fn spec_enc_wf(&self) -> bool {
        true
    }

    fn encode(&mut self, samples: &[i16]) -> (r: Result<Vec<u8>, CodecError>)
        ensures
            r matches Ok(v) && v@ == samples@.map_values(|s: i16| spec_ulaw_encode(s)),
            *final(self) == *old(self),
    {
        let ghost target = samples@.map_values(|s: i16| spec_ulaw_encode(s));
        let mut out: Vec<u8> = Vec::new();
        let mut i: usize = 0;
        while i < samples.len()
            invariant
                i <= samples.len(),
                target == samples@.map_values(|s: i16| spec_ulaw_encode(s)),
                out@.len() == i,
                forall|j: int| 0 <= j < i ==> out@[j] == target[j],
            decreases samples.len() - i,
        {
            out.push(Self::encode_sample(samples[i]));
            i = i + 1;
        }
        assert(out@ =~= target);
        Ok(out)
    }

    fn sample_rate(&self) -> u32 {
        8000
    }

    fn channels(&self) -> u8 {
        1
    }

    fn codec_type(&self) -> CodecType {
        CodecType::G711Ulaw
    }

    fn frame_size(&self) -> usize {
        160
    }
}

/// Decoding an encoded mu-law sample lands within 1000 of the original,
/// over the whole 16-bit range.
pub proof fn lemma_ulaw_roundtrip_error(s: i16)
    ensures
        -1000 < spec_ulaw_decode(spec_ulaw_encode(s)) - s < 1000,
{
    let a = if s < 0 {
        -(s as int)
    } else {
        s as int
    };
    let clipped = if a > 32635 {
        32635int
    } else {
        a
    };
    let biased = clipped + 132;
    let e = spec_ulaw_exponent(biased);
    lemma_ulaw_magnitude(biased);
    let q = biased / pow2(e + 3);
    let m = q % 16;
    let b = spec_ulaw_encode(s);
    let sign: int = if s < 0 {
        128
    } else {
        0
    };
    assert(0 <= m < 16);
    assert(0 <= e <= 7);
    assert(b == 255 - (sign + 16 * e + m));
    let u = 255 - b as int;
    assert(u == sign + 16 * e + m);
    assert((u / 16) % 8 == e && u % 16 == m && (u >= 128 <==> s < 0)) by {
        if s < 0 {
            assert(u == 128 + 16 * e + m);
        } else {
            assert(u == 16 * e + m);
        }
    };
    let mag = (2 * m + 33) * pow2(e + 2) - 132;
    assert(spec_ulaw_decode(b) == if s < 0 { -mag } else { mag });
    assert(-512 < mag - clipped <= 512);
    assert(clipped <= a < clipped + 1000 - 512);
}

/// Within each mu-law segment, the reconstructed magnitude is within half a
/// quantization step of the biased input.
proof fn lemma_ulaw_magnitude(biased: int)
    requires
        132 <= biased <= 32767,
    ensures
        ({
            let e = spec_ulaw_exponent(biased);
            let m = (biased / pow2(e + 3)) % 16;
            let mag = (2 * m + 33) * pow2(e + 2) - 132;
            -512 < mag - (biased - 132) <= 512 && 0 <= e <= 7
        }),
{
    let e = spec_ulaw_exponent(biased);
    let q = biased / pow2(e + 3);
    let m = q % 16;
    let mag = (2 * m + 33) * pow2(e + 2) - 132;
    if e == 0 {
        assert(16 <= q < 32 && m == q - 16);
        assert(-512 < mag - (biased - 132) <= 512);
    } else if e == 1 {
        assert(16 <= q < 32 && m == q - 16);
        assert(-512 < mag - (biased - 132) <= 512);
    } else if e == 2 {
        assert(16 <= q < 32 && m == q - 16);
        assert(-512 < mag - (biased - 132) <= 512);
    } else if e == 3 {
        assert(16 <= q < 32 && m == q - 16);
        assert(-512 < mag - (biased - 132) <= 512);
    } else if e == 4 {
        assert(16 <= q < 32 && m == q - 16);
        assert(-512 < mag - (biased - 132) <= 512);
    } else if e == 5 {
        assert(16 <= q < 32 && m == q - 16);
        assert(-512 < mag - (biased - 132) <= 512);
    } else if e == 6 {
        assert(16 <= q < 32 && m == q - 16);
        assert(-512 < mag - (biased - 132) <= 512);
    } else {
        assert(e == 7);
        assert(16 <= q < 32 && m == q - 16);
        assert(-512 < mag - (biased - 132) <= 512);
    }
}

/// The linear value an A-law byte decodes to.
pub open spec fn spec_alaw_decode(b: u8) -> int {
    let a = b ^ 0x55;
    let e = (a / 16) % 8;
    let m = a % 16;
    let mag = if e == 0 {
        (2 * m + 1) * 8
    } else {
        (2 * m + 33) * pow2(e + 2)
    };
    if a >= 128 {
        -mag
    } else {
        mag
    }
}

/// The A-law segment a scaled-down magnitude falls in.
pub open spec fn spec_alaw_exponent(t: int) -> int {
    if t >= 2048 {
        7
    } else if t >= 1024 {
        6
    } else if t >= 512 {
        5
    } else if t >= 256 {
        4
    } else if t >= 128 {
        3
    } else if t >= 64 {
        2
    } else if t >= 32 {
        1
    } else {
        0
    }
}

/// The A-law byte a linear sample encodes to.
pub open spec fn spec_alaw_encode(pcm: i16) -> u8 {
    let a = if pcm < 0 {
        -(pcm as int)
    } else {
        pcm as int
    };
    let clipped = if a > 32767 {
        32767
    } else {
        a
    };
    let t = clipped / 8;
    let e = spec_alaw_exponent(t);
    let m = if e == 0 {
        t / 2
    } else {
        (t / pow2(e)) % 16
    };
    let sign: int = if pcm < 0 {
        128
    } else {
        0
    };
    ((sign + 16 * e + m) as u8) ^ 0x55
}

/// G.711 A-law decoder/encoder.
pub struct G711AlawCodec;

impl G711AlawCodec {
    pub fn new() -> (r: Self)
        ensures
            r == (G711AlawCodec {}),
    {
        G711AlawCodec {}
    }

    /// Decodes a single A-law byte to a linear sample.
    pub fn decode_sample(alaw: u8) -> (r: i16)
        ensures
            r == spec_alaw_decode(alaw),
    {
        let a: u8 = alaw ^ 0x55;
        let e: u8 = (a / 16) % 8;
        let m: i32 = (a % 16) as i32;
        let mag: i32 = if e == 0 {
            (2 * m + 1) * 8
        } else {
            let scale: i32 = match e {
                1 => 8,
                2 => 16,
                3 => 32,
                4 => 64,
                5 => 128,
                6 => 256,
                _ => 512,
            };
            assert(scale == pow2(e as int + 2));
            (2 * m + 33) * scale
        };
        if a >= 128 {
            (-mag) as i16
        } else {
            mag as i16
        }
    }

    /// Encodes a single linear sample to an A-law byte.
    pub fn encode_sample(pcm: i16) -> (r: u8)
        ensures
            r == spec_alaw_encode(pcm),
    {
        let a: i32 = if pcm < 0 {
            -(pcm as i32)
        } else {
            pcm as i32
        };
        let clipped: i32 = if a > 32767 {
            32767
        } else {
            a
        };
        let t: i32 = clipped / 8;
        let e: u8 = if t >= 2048 {
            7
        } else if t >= 1024 {
            6
        } else if t >= 512 {
            5
        } else if t >= 256 {
            4
        } else if t >= 128 {
            3
        } else if t >= 64 {
            2
        } else if t >= 32 {
            1
        } else {
            0
        };
        let m: i32 = if e == 0 {
            t / 2
        } else {
            let scale: i32 = match e {
                1 => 2,
                2 => 4,
                3 => 8,
                4 => 16,
                5 => 32,
                6 => 64,
                _ => 128,
            };
            assert(scale == pow2(e as int));
            (t / scale) % 16
        };
        let sign: i32 = if pcm < 0 {
            128
        } else {
            0
        };
        ((sign + 16 * e as i32 + m) as u8) ^ 0x55
    }
}

impl AudioDecoder for G711AlawCodec {
    open spec fn spec_dec_sample_rate(&self) -> u32 {
        8000
    }

    open spec fn spec_dec_channels(&self) -> u8 {
        1
    }

    open spec fn spec_dec_codec_type(&self) -> CodecType {
        CodecType::G711Alaw
    }

    fn decode(&mut self, input: &[u8]) -> (r: Result<Vec<i16>, CodecError>)
        ensures
            r matches Ok(v) && v@ == input@.map_values(
                |b: u8| spec_alaw_decode(b) as i16,
            ),
            *final(self) == *old(self),
    {
        let ghost target = input@.map_values(|b: u8| spec_alaw_decode(b) as i16);
        let mut out: Vec<i16> = Vec::new();
        let mut i: usize = 0;
        while i < input.len()
            invariant
                i <= input.len(),
                target == input@.map_values(|b: u8| spec_alaw_decode(b) as i16),
                out@.len() == i,
                forall|j: int| 0 <= j < i ==> out@[j] == target[j],
            decreases input.len() - i,
        {
            out.push(Self::decode_sample(input[i]));
            i = i + 1;
        }
        assert(out@ =~= target);
        Ok(out)
    }

    fn sample_rate(&self) -> u32 {
        8000
    }

    fn channels(&self) -> u8 {
        1
    }

    fn codec_type(&self) -> CodecType {
        CodecType::G711Alaw
    }
}

impl AudioEncoder for G711AlawCodec {
    open spec fn spec_enc_sample_rate(&self) -> u32 {
        8000
    }

    open spec fn spec_enc_channels(&self) -> u8 {
        1
    }

    open spec fn spec_enc_codec_type(&self) -> CodecType {
        CodecType::G711Alaw
    }

    open spec fn spec_enc_frame_size(&self) -> usize {
        160
    }

    open spec fn spec_enc_wf(&self) -> bool {
        true
    }

    fn encode(&mut self, samples: &[i16]) -> (r: Result<Vec<u8>, CodecError>)
        ensures
            r matches Ok(v) && v@ == samples@.map_values(|s: i16| spec_alaw_encode(s)),
            *final(self) == *old(self),
    {
        let ghost target = samples@.map_values(|s: i16| spec_alaw_encode(s));
        let mut out: Vec<u8> = Vec::new();
        let mut i: usize = 0;
        while i < samples.len()
            invariant
                i <= samples.len(),
                target == samples@.map_values(|s: i16| spec_alaw_encode(s)),
                out@.len() == i,
                forall|j: int| 0 <= j < i ==> out@[j] == target[j],
            decreases samples.len() - i,
        {
            out.push(Self::encode_sample(samples[i]));
            i = i + 1;
        }
        assert(out@ =~= target);
        Ok(out)
    }

    fn sample_rate(&self) -> u32 {
        8000
    }

    fn channels(&self) -> u8 {
        1
    }

    fn codec_type(&self) -> CodecType {
        CodecType::G711Alaw
    }

    fn frame_size(&self) -> usize {
        160
    }
}

/// Decoding an encoded A-law sample lands within 1000 of the original,
/// over the whole 16-bit range.
pub proof fn lemma_alaw_roundtrip_error(s: i16)
    ensures
        -1000 < spec_alaw_decode(spec_alaw_encode(s)) - s < 1000,
{
    let a = if s < 0 {
        -(s as int)
    } else {
        s as int
    };
    let clipped = if a > 32767 {
        32767int
    } else {
        a
    };
    let t = clipped / 8;
    let e = spec_alaw_exponent(t);
    let m = if e == 0 {
        t / 2
    } else {
        (t / pow2(e)) % 16
    };
    let sign: int = if s < 0 {
        128
    } else {
        0
    };
    let pre = sign + 16 * e + m;
    lemma_alaw_magnitude(t);
    assert(0 <= e <= 7 && 0 <= m < 16);
    assert(0 <= pre <= 255);
    let b = spec_alaw_encode(s);
    assert(b == (pre as u8) ^ 0x55);
    assert(forall|x: u8| #[trigger] ((x ^ 0x55) ^ 0x55) == x) by (bit_vector);
    let u = (pre as u8) as int;
    assert((u / 16) % 8 == e && u % 16 == m && (u >= 128 <==> s < 0)) by {
        if s < 0 {
            assert(u == 128 + 16 * e + m);
        } else {
            assert(u == 16 * e + m);
        }
    };
    let mag = if e == 0 {
        (2 * m + 1) * 8
    } else {
        (2 * m + 33) * pow2(e + 2)
    };
    assert(spec_alaw_decode(b) == if s < 0 { -mag } else { mag });
    assert(-520 < mag - 8 * t <= 520);
    assert(8 * t <= clipped < 8 * t + 8);
    assert(clipped <= a <= clipped + 1);
}

/// Within each A-law segment, the reconstructed magnitude is within half a
/// quantization step (plus the scale-down loss) of the input.
proof fn lemma_alaw_magnitude(t: int)
    requires
        0 <= t <= 4095,
    ensures
        ({
            let e = spec_alaw_exponent(t);
            let m = if e == 0 {
                t / 2
            } else {
                (t / pow2(e)) % 16
            };
            let mag = if e == 0 {
                (2 * m + 1) * 8
            } else {
                (2 * m + 33) * pow2(e + 2)
            };
            0 <= e <= 7 && 0 <= m < 16 && -520 < mag - 8 * t <= 520
        }),
{
    let e = spec_alaw_exponent(t);
    if e == 0 {
        let m = t / 2;
        assert(0 <= m < 16);
        assert(-520 < (2 * m + 1) * 8 - 8 * t <= 520);
    } else {
        let q = t / pow2(e);
        let m = q % 16;
        let mag = (2 * m + 33) * pow2(e + 2);
        if e == 1 {
            assert(16 <= q < 32 && m == q - 16);
            assert(-520 < mag - 8 * t <= 520);
        } else if e == 2 {
            assert(16 <= q < 32 && m == q - 16);
            assert(-520 < mag - 8 * t <= 520);
        } else if e == 3 {
            assert(16 <= q < 32 && m == q - 16);
            assert(-520 < mag - 8 * t <= 520);
        } else if e == 4 {
            assert(16 <= q < 32 && m == q - 16);
            assert(-520 < mag - 8 * t <= 520);
        } else if e == 5 {
            assert(16 <= q < 32 && m == q - 16);
            assert(-520 < mag - 8 * t <= 520);
        } else if e == 6 {
            assert(16 <= q < 32 && m == q - 16);
            assert(-520 < mag - 8 * t <= 520);
        } else {
            assert(e == 7);
            assert(16 <= q < 32 && m == q - 16);
            assert(-520 < mag - 8 * t <= 520);
        }
    }
}

} // verus!
