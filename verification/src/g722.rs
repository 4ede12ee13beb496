//! G.722 sub-band ADPCM encoder: QMF split plus per-band adaptive quantizers.
//!
//! A reference-grade native encoder; the external transcoder path of the
//! surrounding tool is preferred for audio quality and lives outside this
//! crate.

use vstd::prelude::*;
use crate::codec::{AudioEncoder, CodecError, CodecType};

verus! {

/// Step-size adaptation offsets for the 6-bit low band.
pub open spec fn spec_low_adaptation(i: int) -> int {
    if i == 0 {
        -60
    } else if i == 1 {
        -60
    } else if i == 2 {
        -60
    } else if i == 3 {
        -60
    } else if i == 4 {
        -52
    } else if i == 5 {
        -44
    } else if i == 6 {
        -36
    } else if i == 7 {
        -28
    } else if i == 8 {
        -20
    } else if i == 9 {
        -12
    } else if i == 10 {
        -4
    } else if i == 11 {
        4
    } else if i == 12 {
        12
    } else if i == 13 {
        20
    } else if i == 14 {
        28
    } else if i == 15 {
        36
    } else if i == 16 {
        44
    } else if i == 17 {
        52
    } else if i == 18 {
        60
    } else if i == 19 {
        68
    } else if i == 20 {
        76
    } else if i == 21 {
        84
    } else if i == 22 {
        92
    } else if i == 23 {
        100
    } else if i == 24 {
        108
    } else if i == 25 {
        116
    } else if i == 26 {
        124
    } else if i == 27 {
        132
    } else if i == 28 {
        140
    } else if i == 29 {
        148
    } else if i == 30 {
        156
    } else {
        164
    }
}

/// Step-size adaptation offsets for the 6-bit low band.
fn low_adaptation(i: usize) -> (r: i32)
    requires
        i < 32,
    ensures
        r == spec_low_adaptation(i as int),
{
    match i {
        0 => -60,
        1 => -60,
        2 => -60,
        3 => -60,
        4 => -52,
        5 => -44,
        6 => -36,
        7 => -28,
        8 => -20,
        9 => -12,
        10 => -4,
        11 => 4,
        12 => 12,
        13 => 20,
        14 => 28,
        15 => 36,
        16 => 44,
        17 => 52,
        18 => 60,
        19 => 68,
        20 => 76,
        21 => 84,
        22 => 92,
        23 => 100,
        24 => 108,
        25 => 116,
        26 => 124,
        27 => 132,
        28 => 140,
        29 => 148,
        30 => 156,
        _ => 164,
    }
}

/// Inverse quantizer values for the low band, scaled by the step size.
pub open spec fn spec_low_quant_value(i: int) -> int {
    if i == 0 {
        0
    } else if i == 1 {
        -66
    } else if i == 2 {
        -66
    } else if i == 3 {
        -66
    } else if i == 4 {
        -66
    } else if i == 5 {
        -136
    } else if i == 6 {
        -136
    } else if i == 7 {
        -136
    } else if i == 8 {
        -136
    } else if i == 9 {
        -264
    } else if i == 10 {
        -264
    } else if i == 11 {
        -264
    } else if i == 12 {
        -264
    } else if i == 13 {
        -440
    } else if i == 14 {
        -440
    } else if i == 15 {
        -440
    } else if i == 16 {
        -440
    } else if i == 17 {
        -680
    } else if i == 18 {
        -680
    } else if i == 19 {
        -680
    } else if i == 20 {
        -680
    } else if i == 21 {
        -1000
    } else if i == 22 {
        -1000
    } else if i == 23 {
        -1000
    } else if i == 24 {
        -1000
    } else if i == 25 {
        -1420
    } else if i == 26 {
        -1420
    } else if i == 27 {
        -1420
    } else if i == 28 {
        -1420
    } else if i == 29 {
        -1960
    } else if i == 30 {
        -1960
    } else {
        -1960
    }
}

/// Inverse quantizer values for the low band, scaled by the step size.
fn low_quant_value(i: usize) -> (r: i32)
    requires
        i < 32,
    ensures
        r == spec_low_quant_value(i as int),
{
    match i {
        0 => 0,
        1 => -66,
        2 => -66,
        3 => -66,
        4 => -66,
        5 => -136,
        6 => -136,
        7 => -136,
        8 => -136,
        9 => -264,
        10 => -264,
        11 => -264,
        12 => -264,
        13 => -440,
        14 => -440,
        15 => -440,
        16 => -440,
        17 => -680,
        18 => -680,
        19 => -680,
        20 => -680,
        21 => -1000,
        22 => -1000,
        23 => -1000,
        24 => -1000,
        25 => -1420,
        26 => -1420,
        27 => -1420,
        28 => -1420,
        29 => -1960,
        30 => -1960,
        _ => -1960,
    }
}

/// Step-size multiplier ladder shared by both bands.
pub open spec fn spec_det_multiplier(i: int) -> int {
    if i == 0 {
        32
    } else if i == 1 {
        33
    } else if i == 2 {
        34
    } else if i == 3 {
        35
    } else if i == 4 {
        36
    } else if i == 5 {
        37
    } else if i == 6 {
        38
    } else if i == 7 {
        39
    } else if i == 8 {
        40
    } else if i == 9 {
        41
    } else if i == 10 {
        42
    } else if i == 11 {
        43
    } else if i == 12 {
        44
    } else if i == 13 {
        45
    } else if i == 14 {
        46
    } else if i == 15 {
        47
    } else if i == 16 {
        48
    } else if i == 17 {
        49
    } else if i == 18 {
        51
    } else if i == 19 {
        52
    } else if i == 20 {
        54
    } else if i == 21 {
        55
    } else if i == 22 {
        57
    } else if i == 23 {
        58
    } else if i == 24 {
        60
    } else if i == 25 {
        62
    } else if i == 26 {
        64
    } else if i == 27 {
        66
    } else if i == 28 {
        68
    } else if i == 29 {
        70
    } else if i == 30 {
        72
    } else if i == 31 {
        74
    } else if i == 32 {
        76
    } else if i == 33 {
        79
    } else if i == 34 {
        81
    } else if i == 35 {
        84
    } else if i == 36 {
        86
    } else if i == 37 {
        89
    } else if i == 38 {
        92
    } else if i == 39 {
        95
    } else if i == 40 {
        98
    } else if i == 41 {
        101
    } else if i == 42 {
        104
    } else if i == 43 {
        108
    } else if i == 44 {
        111
    } else if i == 45 {
        115
    } else if i == 46 {
        118
    } else if i == 47 {
        122
    } else if i == 48 {
        126
    } else if i == 49 {
        130
    } else if i == 50 {
        134
    } else if i == 51 {
        138
    } else if i == 52 {
        143
    } else if i == 53 {
        148
    } else if i == 54 {
        152
    } else if i == 55 {
        157
    } else if i == 56 {
        162
    } else if i == 57 {
        168
    } else if i == 58 {
        173
    } else if i == 59 {
        179
    } else if i == 60 {
        185
    } else if i == 61 {
        191
    } else if i == 62 {
        197
    } else if i == 63 {
        204
    } else if i == 64 {
        211
    } else if i == 65 {
        218
    } else if i == 66 {
        225
    } else if i == 67 {
        233
    } else if i == 68 {
        241
    } else if i == 69 {
        249
    } else if i == 70 {
        257
    } else if i == 71 {
        266
    } else if i == 72 {
        275
    } else if i == 73 {
        284
    } else if i == 74 {
        294
    } else if i == 75 {
        304
    } else if i == 76 {
        315
    } else if i == 77 {
        326
    } else if i == 78 {
        337
    } else if i == 79 {
        349
    } else if i == 80 {
        361
    } else if i == 81 {
        373
    } else if i == 82 {
        386
    } else if i == 83 {
        400
    } else if i == 84 {
        414
    } else if i == 85 {
        428
    } else if i == 86 {
        444
    } else if i == 87 {
        459
    } else {
        476
    }
}

/// Step-size multiplier ladder shared by both bands.
fn det_multiplier(i: usize) -> (r: i32)
    requires
        i < 89,
    ensures
        r == spec_det_multiplier(i as int),
{
    match i {
        0 => 32,
        1 => 33,
        2 => 34,
        3 => 35,
        4 => 36,
        5 => 37,
        6 => 38,
        7 => 39,
        8 => 40,
        9 => 41,
        10 => 42,
        11 => 43,
        12 => 44,
        13 => 45,
        14 => 46,
        15 => 47,
        16 => 48,
        17 => 49,
        18 => 51,
        19 => 52,
        20 => 54,
        21 => 55,
        22 => 57,
        23 => 58,
        24 => 60,
        25 => 62,
        26 => 64,
        27 => 66,
        28 => 68,
        29 => 70,
        30 => 72,
        31 => 74,
        32 => 76,
        33 => 79,
        34 => 81,
        35 => 84,
        36 => 86,
        37 => 89,
        38 => 92,
        39 => 95,
        40 => 98,
        41 => 101,
        42 => 104,
        43 => 108,
        44 => 111,
        45 => 115,
        46 => 118,
        47 => 122,
        48 => 126,
        49 => 130,
        50 => 134,
        51 => 138,
        52 => 143,
        53 => 148,
        54 => 152,
        55 => 157,
        56 => 162,
        57 => 168,
        58 => 173,
        59 => 179,
        60 => 185,
        61 => 191,
        62 => 197,
        63 => 204,
        64 => 211,
        65 => 218,
        66 => 225,
        67 => 233,
        68 => 241,
        69 => 249,
        70 => 257,
        71 => 266,
        72 => 275,
        73 => 284,
        74 => 294,
        75 => 304,
        76 => 315,
        77 => 326,
        78 => 337,
        79 => 349,
        80 => 361,
        81 => 373,
        82 => 386,
        83 => 400,
        84 => 414,
        85 => 428,
        86 => 444,
        87 => 459,
        _ => 476,
    }
}

/// Upper adaptation offsets for the 2-bit high band.
pub open spec fn spec_high_adaptation(i: int) -> int {
    if i == 1 || i == 2 {
        798
    } else {
        -214
    }
}

/// Upper adaptation offsets for the 2-bit high band.
fn high_adaptation(i: usize) -> (r: i32)
    requires
        i < 4,
    ensures
        r == spec_high_adaptation(i as int),
{
    match i {
        1 => 798,
        2 => 798,
        _ => -214,
    }
}

/// Inverse quantizer values for the high band, scaled by the step size.
pub open spec fn spec_high_quant_value(i: int) -> int {
    if i == 1 {
        -2048
    } else if i == 3 {
        2048
    } else {
        0
    }
}

/// Inverse quantizer values for the high band, scaled by the step size.
fn high_quant_value(i: usize) -> (r: i32)
    requires
        i < 4,
    ensures
        r == spec_high_quant_value(i as int),
{
    match i {
        1 => -2048,
        3 => 2048,
        _ => 0,
    }
}

/// Clamps an integer into `[lo, hi]`.
pub open spec fn spec_clamp(v: int, lo: int, hi: int) -> int {
    if v < lo {
        lo
    } else if v > hi {
        hi
    } else {
        v
    }
}

/// State of one sub-band quantizer.
#[verifier::ext_equal]
pub struct G722BandState {
    /// Reconstructed signal.
    pub s: i32,
    /// Predicted signal.
    pub sp: i32,
    /// Zero-section prediction.
    pub sz: i32,
    /// Delay line of quantized differences.
    pub r: [i32; 3],
    /// Delay line of partial reconstructions.
    pub p: [i32; 3],
    /// Second-order predictor coefficients.
    pub a: [i32; 3],
    /// Sixth-order predictor coefficients.
    pub b: [i32; 7],
    /// Quantized difference history.
    pub d: [i32; 7],
    /// Step-size multiplier state.
    pub nb: i32,
    /// Quantizer step size.
    pub det: i32,
}

impl G722BandState {
    /// A fresh band with the given initial step size.
    pub fn new(det: i32) -> (r: Self)
        ensures
            r == spec_band_new(det),
    {
        G722BandState {
            s: 0,
            sp: 0,
            sz: 0,
            r: [0, 0, 0],
            p: [0, 0, 0],
            a: [0, 0, 0],
            b: [0, 0, 0, 0, 0, 0, 0],
            d: [0, 0, 0, 0, 0, 0, 0],
            nb: 0,
            det,
        }
    }
}

/// A fresh band with the given initial step size.
pub open spec fn spec_band_new(det: i32) -> G722BandState {
    G722BandState {
        s: 0,
        sp: 0,
        sz: 0,
        r: [0, 0, 0],
        p: [0, 0, 0],
        a: [0, 0, 0],
        b: [0, 0, 0, 0, 0, 0, 0],
        d: [0, 0, 0, 0, 0, 0, 0],
        nb: 0,
        det,
    }
}

/// Bounds every reachable band state satisfies.
pub open spec fn band_wf(st: G722BandState, det_floor: int, det_cap: int, sp_lo: int, sp_hi: int) -> bool {
    &&& det_floor <= st.det <= det_cap
    &&& sp_lo <= st.sp <= sp_hi
    &&& 0 <= st.nb <= 22528
    &&& st.sz == 0
}

/// The low-band half of the QMF analysis: the average of a sample pair.
pub open spec fn spec_qmf_low(s1: i16, s2: i16) -> int {
    (s1 + s2) / 2
}

/// The high-band half of the QMF analysis: half the difference of a pair.
pub open spec fn spec_qmf_high(s1: i16, s2: i16) -> int {
    (s1 - s2) / 2
}

/// The quantizer ladder: the highest level whose threshold the magnitude
/// exceeds, walking up from `level`, capped at 29.
pub open spec fn spec_quant_climb(abs_d: int, det: int, i: int, level: int, threshold: int) -> int
    decreases 30 - i,
{
    if i >= 30 {
        level
    } else if abs_d > threshold {
        spec_quant_climb(abs_d, det, i + 1, i, threshold + det)
    } else {
        level
    }
}

/// The 6-bit low-band code of a difference signal.
pub open spec fn spec_quantize_low(d: int, det: int) -> u8 {
    let sign: int = if d < 0 {
        32
    } else {
        0
    };
    let abs_d = if d < 0 {
        -d
    } else {
        d
    };
    let level = spec_quant_climb(abs_d, det, 1, 0, det / 2);
    (sign + level) as u8
}

/// The difference signal a low-band code reconstructs to.
pub open spec fn spec_inv_quantize_low(i: u8, det: int) -> int {
    let level = i % 32;
    let value = det * spec_low_quant_value(level as int) / 32768;
    if i >= 32 {
        -value
    } else {
        value
    }
}

/// The 2-bit high-band code of a difference signal.
pub open spec fn spec_quantize_high(d: int, det: int) -> u8 {
    let sign: int = if d < 0 {
        2
    } else {
        0
    };
    let abs_d = if d < 0 {
        -d
    } else {
        d
    };
    let level: int = if abs_d > det * 3 {
        1
    } else {
        0
    };
    (sign + level) as u8
}

/// The difference signal a high-band code reconstructs to.
pub open spec fn spec_inv_quantize_high(i: u8, det: int) -> int {
    det * spec_high_quant_value((i % 4) as int) / 32768
}

/// The low band after its delay lines absorb a reconstructed difference.
pub open spec fn spec_update_predictor_low(st: G722BandState, dx: int) -> G722BandState {
    let p0 = dx + st.sz;
    G722BandState {
        r: [dx as i32, st.r[0], st.r[1]],
        p: [p0 as i32, st.p[0], st.p[1]],
        sp: spec_clamp(p0, -32768, 32767) as i32,
        ..st
    }
}

/// The high band after a reconstructed difference.
pub open spec fn spec_update_predictor_high(st: G722BandState, dx: int) -> G722BandState {
    G722BandState { sp: spec_clamp(dx, -16384, 16383) as i32, ..st }
}

/// The low band after step-size adaptation for a code.
pub open spec fn spec_adapt_step_low(st: G722BandState, i_low: u8) -> G722BandState {
    let nb = spec_clamp(st.nb + spec_low_adaptation((i_low % 32) as int), 0, 22528);
    let det0 = st.det * spec_det_multiplier(nb / 256) / 32768;
    let det = if det0 < 32 {
        32
    } else {
        det0
    };
    G722BandState { nb: nb as i32, det: det as i32, ..st }
}

/// The high band after step-size adaptation for a code.
pub open spec fn spec_adapt_step_high(st: G722BandState, i_high: u8) -> G722BandState {
    let nb = spec_clamp(st.nb + spec_high_adaptation((i_high % 4) as int), 0, 22528);
    let det0 = st.det * spec_det_multiplier(nb / 256) / 32768;
    let det = if det0 < 8 {
        8
    } else {
        det0
    };
    G722BandState { nb: nb as i32, det: det as i32, ..st }
}

/// One low-band encoding step: quantize, reconstruct, adapt.
pub open spec fn spec_encode_low_band(st: G722BandState, x_low: int) -> (G722BandState, u8) {
    let d = x_low - st.sp;
    let i_low = spec_quantize_low(d, st.det as int);
    let dx = spec_inv_quantize_low(i_low, st.det as int);
    let st1 = spec_update_predictor_low(st, dx);
    let st2 = spec_adapt_step_low(st1, i_low);
    (st2, i_low)
}

/// One high-band encoding step: quantize, reconstruct, adapt.
pub open spec fn spec_encode_high_band(st: G722BandState, x_high: int) -> (G722BandState, u8) {
    let d = x_high - st.sp;
    let i_high = spec_quantize_high(d, st.det as int);
    let dx = spec_inv_quantize_high(i_high, st.det as int);
    let st1 = spec_update_predictor_high(st, dx);
    let st2 = spec_adapt_step_high(st1, i_high);
    (st2, i_high)
}

/// One output byte: the high-band code in the top two bits, the low-band
/// code in the bottom six.
pub open spec fn spec_pack_byte(i_high: u8, i_low: u8) -> u8 {
    ((i_high % 4) * 64 + i_low % 64) as u8
}

/// Encoding a whole frame, two input samples per output byte; a trailing
/// odd sample is dropped.
pub open spec fn spec_encode_frame(
    low: G722BandState,
    high: G722BandState,
    samples: Seq<i16>,
) -> (G722BandState, G722BandState, Seq<u8>)
    decreases samples.len(),
{
    if samples.len() < 2 {
        (low, high, Seq::empty())
    } else {
        let x_low = spec_qmf_low(samples[0], samples[1]);
        let x_high = spec_qmf_high(samples[0], samples[1]);
        let (low1, i_low) = spec_encode_low_band(low, x_low);
        let (high1, i_high) = spec_encode_high_band(high, x_high);
        let rest = spec_encode_frame(low1, high1, samples.skip(2));
        (rest.0, rest.1, seq![spec_pack_byte(i_high, i_low)] + rest.2)
    }
}

/// G.722 encoder state: one quantizer per sub-band.
#[verifier::ext_equal]
pub struct G722Encoder {
    /// Lower band quantizer state.
    pub band_low: G722BandState,
    /// Upper band quantizer state.
    pub band_high: G722BandState,
}

impl G722Encoder {
    /// Bounds every reachable encoder state satisfies.
    pub open spec fn wf(&self) -> bool {
        band_wf(self.band_low, 32, 32, -32768, 32767) && band_wf(self.band_high, 8, 8, -16384, 16383)
    }

    pub fn new() -> (r: Self)
        ensures
            r.band_low == spec_band_new(32),
            r.band_high == spec_band_new(8),
            r.wf(),
    {
        G722Encoder { band_low: G722BandState::new(32), band_high: G722BandState::new(8) }
    }

    /// Encodes 16 kHz PCM samples to G.722, two samples per output byte.
    pub fn encode_frame(&mut self, samples: &[i16]) -> (r: Vec<u8>)
        requires
            old(self).wf(),
        ensures
            final(self).wf(),
            (final(self).band_low, final(self).band_high, r@) == spec_encode_frame(
                old(self).band_low,
                old(self).band_high,
                samples@,
            ),
    {
        let ghost whole = spec_encode_frame(self.band_low, self.band_high, samples@);
        let mut out: Vec<u8> = Vec::new();
        let mut k: usize = 0;
        let n = samples.len() / 2;
        proof {
            assert(samples@.skip(0) =~= samples@);
        }
        while k < n
            invariant
                k <= n,
                n == samples@.len() / 2,
                samples@.len() <= usize::MAX,
                self.wf(),
                whole == ({
                    let rest = spec_encode_frame(self.band_low, self.band_high, samples@.skip(2 * k));
                    (rest.0, rest.1, out@ + rest.2)
                }),
            decreases n - k,
        {
            let ghost pre_low = self.band_low;
            let ghost pre_high = self.band_high;
            let ghost tail = samples@.skip(2 * k);
            assert(2 * k + 1 < samples@.len());
            let s1 = samples[2 * k];
            let s2 = samples[2 * k + 1];
            assert(tail[0] == s1 && tail[1] == s2 && tail.len() >= 2);
            let x_low = qmf_half_sum(s1, s2);
            let x_high = qmf_half_diff(s1, s2);
            let i_low = self.encode_low_band(x_low);
            let i_high = self.encode_high_band(x_high);
            out.push((i_high % 4) * 64 + i_low % 64);
            k = k + 1;
            proof {
                assert(tail.skip(2) =~= samples@.skip(2 * k));
                let rest = spec_encode_frame(self.band_low, self.band_high, samples@.skip(2 * k));
                assert(spec_encode_frame(pre_low, pre_high, tail) == (
                    rest.0,
                    rest.1,
                    seq![spec_pack_byte(i_high, i_low)] + rest.2,
                ));
                assert(out@ + rest.2 =~= out@.drop_last() + (seq![
                    spec_pack_byte(i_high, i_low),
                ] + rest.2));
            }
        }
        proof {
            let rest = spec_encode_frame(self.band_low, self.band_high, samples@.skip(2 * k));
            assert(samples@.skip(2 * k).len() < 2);
            assert(out@ + rest.2 =~= out@);
        }
        out
    }

    /// Encodes the low sub-band with the 6-bit adaptive quantizer.
    fn encode_low_band(&mut self, x_low: i32) -> (r: u8)
        requires
            old(self).wf(),
            -32768 <= x_low <= 32767,
        ensures
            final(self).wf(),
            final(self).band_high == old(self).band_high,
            (final(self).band_low, r) == spec_encode_low_band(old(self).band_low, x_low as int),
    {
        let d_low = x_low - self.band_low.sp;
        let i_low = quantize_low(d_low, self.band_low.det);
        let d_low_x = inverse_quantize_low(i_low, self.band_low.det);
        self.update_predictor_low(d_low_x);
        self.adapt_step_low(i_low);
        i_low
    }

    /// Encodes the high sub-band with the 2-bit adaptive quantizer.
    fn encode_high_band(&mut self, x_high: i32) -> (r: u8)
        requires
            old(self).wf(),
            -32768 <= x_high <= 32767,
        ensures
            final(self).wf(),
            final(self).band_low == old(self).band_low,
            (final(self).band_high, r) == spec_encode_high_band(old(self).band_high, x_high as int),
    {
        let d_high = x_high - self.band_high.sp;
        let i_high = quantize_high(d_high, self.band_high.det);
        let d_high_x = inverse_quantize_high(i_high, self.band_high.det);
        self.update_predictor_high(d_high_x);
        self.adapt_step_high(i_high);
        i_high
    }

    /// Shifts the low band's delay lines and re-predicts.
    fn update_predictor_low(&mut self, d_low_x: i32)
        requires
            old(self).wf(),
            -4 <= d_low_x <= 4,
        ensures
            final(self).band_high == old(self).band_high,
            final(self).band_low == spec_update_predictor_low(old(self).band_low, d_low_x as int),
            band_wf(final(self).band_low, 32, 32, -32768, 32767),
    {
        let b = &mut self.band_low;
        b.r[2] = b.r[1];
        b.r[1] = b.r[0];
        b.r[0] = d_low_x;
        b.p[2] = b.p[1];
        b.p[1] = b.p[0];
        b.p[0] = d_low_x + b.sz;
        b.sp = clamp_i32(b.p[0], -32768, 32767);
        proof {
            let want = spec_update_predictor_low(old(self).band_low, d_low_x as int);
            assert(self.band_low.r =~= want.r);
            assert(self.band_low.p =~= want.p);
            assert(self.band_low =~= want);
        }
    }

    /// Re-predicts the high band from a reconstructed difference.
    fn update_predictor_high(&mut self, d_high_x: i32)
        requires
            old(self).wf(),
            -4 <= d_high_x <= 4,
        ensures
            final(self).band_low == old(self).band_low,
            final(self).band_high == spec_update_predictor_high(old(self).band_high, d_high_x as int),
            band_wf(final(self).band_high, 8, 8, -16384, 16383),
    {
        self.band_high.sp = clamp_i32(d_high_x, -16384, 16383);
        proof {
            assert(self.band_high =~= spec_update_predictor_high(old(self).band_high, d_high_x as int));
        }
    }

    /// Adapts the low band's step size after a code.
    fn adapt_step_low(&mut self, i_low: u8)
        requires
            old(self).wf(),
        ensures
            final(self).band_high == old(self).band_high,
            final(self).band_low == spec_adapt_step_low(old(self).band_low, i_low),
            band_wf(final(self).band_low, 32, 32, -32768, 32767),
    {
        let b = &mut self.band_low;
        let index = (i_low % 32) as usize;
        b.nb = clamp_i32(b.nb + low_adaptation(index), 0, 22528);
        let det0 = b.det * det_multiplier((b.nb / 256) as usize) / 32768;
        b.det = if det0 < 32 {
            32
        } else {
            det0
        };
        proof {
            assert(self.band_low =~= spec_adapt_step_low(old(self).band_low, i_low));
        }
    }

    /// Adapts the high band's step size after a code.
    fn adapt_step_high(&mut self, i_high: u8)
        requires
            old(self).wf(),
        ensures
            final(self).band_low == old(self).band_low,
            final(self).band_high == spec_adapt_step_high(old(self).band_high, i_high),
            band_wf(final(self).band_high, 8, 8, -16384, 16383),
    {
        let b = &mut self.band_high;
        let index = (i_high % 4) as usize;
        b.nb = clamp_i32(b.nb + high_adaptation(index), 0, 22528);
        let det0 = b.det * det_multiplier((b.nb / 256) as usize) / 32768;
        b.det = if det0 < 8 {
            8
        } else {
            det0
        };
        proof {
            assert(self.band_high =~= spec_adapt_step_high(old(self).band_high, i_high));
        }
    }
}

/// The low-band half of the QMF analysis: the average of a sample pair.
fn qmf_half_sum(s1: i16, s2: i16) -> (r: i32)
    ensures
        r == spec_qmf_low(s1, s2),
        -32768 <= r <= 32767,
{
    floor_half(s1 as i32 + s2 as i32)
}

/// The high-band half of the QMF analysis: half the difference of a pair.
fn qmf_half_diff(s1: i16, s2: i16) -> (r: i32)
    ensures
        r == spec_qmf_high(s1, s2),
        -32768 <= r <= 32767,
{
    floor_half(s1 as i32 - s2 as i32)
}

/// Halves, rounding toward negative infinity.
fn floor_half(x: i32) -> (r: i32)
    requires
        -65536 <= x <= 65535,
    ensures
        r == x as int / 2,
{
    if x >= 0 {
        x / 2
    } else {
        -((-x + 1) / 2)
    }
}

/// Clamps an integer into `[lo, hi]`.
fn clamp_i32(v: i32, lo: i32, hi: i32) -> (r: i32)
    requires
        lo <= hi,
    ensures
        r == spec_clamp(v as int, lo as int, hi as int),
{
    if v < lo {
        lo
    } else if v > hi {
        hi
    } else {
        v
    }
}

/// Quantizes a low-band difference to a 6-bit code.
fn quantize_low(d: i32, det: i32) -> (r: u8)
    requires
        1 <= det <= 32,
        -65536 <= d <= 65535,
    ensures
        r == spec_quantize_low(d as int, det as int),
        r % 32 <= 29,
{
    let sign: u8 = if d < 0 {
        0x20
    } else {
        0
    };
    let abs_d = if d < 0 {
        -d
    } else {
        d
    };
    let mut level: u8 = 0;
    let mut threshold: i32 = det / 2;
    let mut i: u8 = 1;
    while i < 30 && abs_d > threshold
        invariant
            1 <= i <= 30,
            level == i - 1,
            1 <= det <= 32,
            0 <= abs_d <= 65536,
            threshold == det / 2 + (i - 1) * det,
            spec_quant_climb(abs_d as int, det as int, 1, 0, det as int / 2)
                == spec_quant_climb(
                abs_d as int,
                det as int,
                i as int,
                level as int,
                threshold as int,
            ),
        decreases 30 - i,
    {
        proof {
            assert((i as int - 1) * det + det == ((i as int + 1) - 1) * det) by (nonlinear_arith);
            assert(spec_quant_climb(
                abs_d as int,
                det as int,
                i as int,
                level as int,
                threshold as int,
            ) == spec_quant_climb(
                abs_d as int,
                det as int,
                i as int + 1,
                i as int,
                threshold as int + det,
            ));
        }
        level = i;
        threshold = threshold + det;
        i = i + 1;
    }
    assert(spec_quant_climb(
        abs_d as int,
        det as int,
        i as int,
        level as int,
        threshold as int,
    ) == level);
    sign + level
}

/// Reconstructs a low-band difference from its code.
fn inverse_quantize_low(i: u8, det: i32) -> (r: i32)
    requires
        1 <= det <= 32,
    ensures
        r == spec_inv_quantize_low(i, det as int),
        -4 <= r <= 4,
{
    let level = (i % 32) as usize;
    let q = low_quant_value(level);
    let value = floor_div_32768(det * q);
    if i >= 32 {
        -value
    } else {
        value
    }
}

/// Quantizes a high-band difference to a 2-bit code.
fn quantize_high(d: i32, det: i32) -> (r: u8)
    requires
        1 <= det <= 8,
        -65536 <= d <= 65535,
    ensures
        r == spec_quantize_high(d as int, det as int),
{
    let sign: u8 = if d < 0 {
        0x02
    } else {
        0
    };
    let abs_d = if d < 0 {
        -d
    } else {
        d
    };
    let level: u8 = if abs_d > det * 3 {
        1
    } else {
        0
    };
    sign + level
}

/// Reconstructs a high-band difference from its code.
fn inverse_quantize_high(i: u8, det: i32) -> (r: i32)
    requires
        1 <= det <= 8,
    ensures
        r == spec_inv_quantize_high(i, det as int),
        -4 <= r <= 4,
{
    let q = high_quant_value((i % 4) as usize);
    floor_div_32768(det * q)
}

/// Divides by 32768, rounding toward negative infinity.
fn floor_div_32768(x: i32) -> (r: i32)
    requires
        -0x4000_0000 <= x <= 0x4000_0000,
    ensures
        r == x as int / 32768,
{
    if x >= 0 {
        x / 32768
    } else {
        -((-x + 32767) / 32768)
    }
}

impl AudioEncoder for G722Encoder {
    open spec fn spec_enc_sample_rate(&self) -> u32 {
        16000
    }

    open spec fn spec_enc_channels(&self) -> u8 {
        1
    }

    open spec fn spec_enc_codec_type(&self) -> CodecType {
        CodecType::G722
    }

    open spec fn spec_enc_frame_size(&self) -> usize {
        320
    }

    open spec fn spec_enc_wf(&self) -> bool {
        self.wf()
    }

    fn encode(&mut self, samples: &[i16]) -> (r: Result<Vec<u8>, CodecError>)
        ensures
            r matches Ok(v) && (final(self).band_low, final(self).band_high, v@) == spec_encode_frame(
                old(self).band_low,
                old(self).band_high,
                samples@,
            ),
            final(self).wf(),
    {
        Ok(self.encode_frame(samples))
    }

    fn sample_rate(&self) -> u32 {
        16000
    }

    fn channels(&self) -> u8 {
        1
    }

    fn codec_type(&self) -> CodecType {
        CodecType::G722
    }

    fn frame_size(&self) -> usize {
        320
    }
}

} // verus!
