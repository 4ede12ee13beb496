//! Sample-domain helpers of the transmit path: linear resampling,
//! mono downmix, and framing with zero padding.

use vstd::prelude::*;

verus! {

/// Division truncating toward zero, as the machine divides.
pub open spec fn spec_trunc_div(a: int, b: int) -> int {
    if a >= 0 {
        a / b
    } else {
        -((-a) / b)
    }
}

/// Linear interpolation between `a` and `b` at `rem / to` of the way,
/// truncating toward `a`.
pub open spec fn spec_lerp(a: int, b: int, rem: int, to: int) -> int {
    if b >= a {
        a + (b - a) * rem / to
    } else {
        a - (a - b) * rem / to
    }
}

/// The resampled value at output index `i`: the input is read at position
/// `i * from / to` and interpolated between its neighbours.
pub open spec fn spec_resample_at(s: Seq<i16>, from: int, to: int, i: int) -> i16 {
    let idx = i * from / to;
    let rem = i * from % to;
    if idx + 1 >= s.len() {
        if idx < s.len() {
            s[idx]
        } else {
            s[s.len() - 1]
        }
    } else {
        spec_lerp(s[idx] as int, s[idx + 1] as int, rem, to) as i16
    }
}

/// The linearly resampled sequence: `floor(len * to / from)` output
/// samples.
pub open spec fn spec_resample(s: Seq<i16>, from: int, to: int) -> Seq<i16> {
    Seq::new((s.len() * to / from) as nat, |i: int| spec_resample_at(s, from, to, i))
}

/// Interpolates between two samples; the result stays between them.
fn lerp(a: i16, b: i16, rem: u64, to: u64) -> (r: i16)
    requires
        1 <= to <= u32::MAX,
        rem < to,
    ensures
        r == spec_lerp(a as int, b as int, rem as int, to as int),
{
    if b >= a {
        let diff: u64 = (b as i64 - a as i64) as u64;
        proof {
            assert(diff as int * rem as int <= 65535 * 0xffff_ffffint) by (nonlinear_arith)
                requires
                    0 <= diff <= 65535 && 0 <= rem <= 0xffff_ffff,
            ;
        }
        let step: u64 = diff * rem / to;
        proof {
            lemma_scaled_fraction_bounded(diff as int, rem as int, to as int);
        }
        (a as i64 + step as i64) as i16
    } else {
        let diff: u64 = (a as i64 - b as i64) as u64;
        proof {
            assert(diff as int * rem as int <= 65535 * 0xffff_ffffint) by (nonlinear_arith)
                requires
                    0 <= diff <= 65535 && 0 <= rem <= 0xffff_ffff,
            ;
        }
        let step: u64 = diff * rem / to;
        proof {
            lemma_scaled_fraction_bounded(diff as int, rem as int, to as int);
        }
        (a as i64 - step as i64) as i16
    }
}

/// A nonnegative value scaled by a proper fraction does not grow.
proof fn lemma_scaled_fraction_bounded(diff: int, rem: int, to: int)
    requires
        0 <= diff,
        0 <= rem < to,
    ensures
        0 <= diff * rem / to <= diff,
{
    assert(diff * rem <= diff * to) by (nonlinear_arith)
        requires
            0 <= diff && rem <= to,
    ;
    assert(diff * rem / to <= diff * to / to) by {
        vstd::arithmetic::div_mod::lemma_div_is_ordered(diff * rem, diff * to, to);
    };
    assert(diff * to / to == diff) by {
        vstd::arithmetic::div_mod::lemma_div_by_multiple(diff, to);
    };
    assert(diff * rem >= 0) by (nonlinear_arith)
        requires
            0 <= diff && 0 <= rem,
    ;
    assert(diff * rem / to >= 0) by {
        vstd::arithmetic::div_mod::lemma_div_is_ordered(0, diff * rem, to);
    };
}

/// Linear-interpolation resampling between two rates. The output holds
/// `floor(len * to / from)` samples; equal rates return the input
/// unchanged.
pub fn simple_resample(samples: &[i16], from_rate: u32, to_rate: u32) -> (r: Vec<i16>)
    requires
        from_rate >= 1,
        to_rate >= 1,
        samples@.len() as int * to_rate as int / from_rate as int <= usize::MAX,
    ensures
        r@ == spec_resample(samples@, from_rate as int, to_rate as int),
        r@.len() == samples@.len() as int * to_rate as int / from_rate as int,
{
    let ghost target = spec_resample(samples@, from_rate as int, to_rate as int);
    let len: u64 = samples.len() as u64;
    proof {
        assert(len as int * to_rate as int <= 0xffff_ffff_ffff_ffff * 0xffff_ffffint)
            by (nonlinear_arith)
            requires
                0 <= len <= 0xffff_ffff_ffff_ffff && 0 <= to_rate <= 0xffff_ffff,
        ;
    }
    let new_len_wide: u128 = len as u128 * to_rate as u128 / from_rate as u128;
    let new_len: usize = new_len_wide as usize;
    assert(new_len == samples@.len() as int * to_rate as int / from_rate as int);
    let mut out: Vec<i16> = Vec::new();
    let mut i: usize = 0;
    while i < new_len
        invariant
            i <= new_len,
            new_len == samples@.len() as int * to_rate as int / from_rate as int,
            1 <= from_rate,
            1 <= to_rate,
            samples@.len() <= usize::MAX,
            target == spec_resample(samples@, from_rate as int, to_rate as int),
            out@.len() == i,
            forall|j: int| 0 <= j < i ==> out@[j] == target[j],
        decreases new_len - i,
    {
        proof {
            assert(i as int * from_rate as int <= 0xffff_ffff_ffff_ffff * 0xffff_ffffint)
                by (nonlinear_arith)
                requires
                    0 <= i <= 0xffff_ffff_ffff_ffff && 0 <= from_rate <= 0xffff_ffff,
            ;
        }
        let pos_num: u128 = i as u128 * from_rate as u128;
        let idx_wide: u128 = pos_num / to_rate as u128;
        let rem: u64 = (pos_num % to_rate as u128) as u64;
        proof {
            lemma_resample_index_bounded(
                samples@.len() as int,
                from_rate as int,
                to_rate as int,
                i as int,
            );
        }
        let idx: usize = idx_wide as usize;
        let v: i16 = if idx + 1 >= samples.len() {
            if idx < samples.len() {
                samples[idx]
            } else {
                samples[samples.len() - 1]
            }
        } else {
            lerp(samples[idx], samples[idx + 1], rem, to_rate as u64)
        };
        out.push(v);
        i = i + 1;
    }
    assert(out@ =~= target);
    out
}

/// Every output index reads an input position below the input length
/// (when any input exists) and below `usize::MAX`.
proof fn lemma_resample_index_bounded(len: int, from: int, to: int, i: int)
    requires
        1 <= from,
        1 <= to,
        0 <= i < len * to / from,
        len <= usize::MAX,
    ensures
        i * from / to < len,
        0 <= i * from / to,
{
    let n = len * to / from;
    assert(n * from <= len * to) by {
        vstd::arithmetic::div_mod::lemma_fundamental_div_mod(len * to, from);
        assert(len * to == from * (len * to / from) + (len * to) % from);
        vstd::arithmetic::div_mod::lemma_mod_bound(len * to, from);
        assert(n * from == from * n) by (nonlinear_arith);
    };
    assert(i * from < n * from) by (nonlinear_arith)
        requires
            i < n && 1 <= from,
    ;
    assert(i * from < len * to);
    assert(i * from / to < len) by {
        vstd::arithmetic::div_mod::lemma_div_is_ordered(i * from, len * to - 1, to);
        assert((len * to - 1) / to == len - 1) by {
            assert(len * to - 1 == to * (len - 1) + (to - 1)) by (nonlinear_arith);
            vstd::arithmetic::div_mod::lemma_fundamental_div_mod_converse_div(
                len * to - 1,
                to,
                len - 1,
                to - 1,
            );
        };
    };
    assert(0 <= i * from) by (nonlinear_arith)
        requires
            0 <= i && 1 <= from,
    ;
    vstd::arithmetic::div_mod::lemma_div_is_ordered(0, i * from, to);
}

/// Resampling at equal rates returns the input unchanged.
pub proof fn lemma_resample_identity(s: Seq<i16>, rate: int)
    requires
        rate >= 1,
    ensures
        spec_resample(s, rate, rate) == s,
{
    let r = spec_resample(s, rate, rate);
    assert(s.len() * rate / rate == s.len()) by {
        vstd::arithmetic::div_mod::lemma_div_multiples_vanish(s.len() as int, rate);
        assert(s.len() * rate == rate * s.len()) by (nonlinear_arith);
    };
    assert forall|i: int| 0 <= i < s.len() implies r[i] == s[i] by {
        assert(i * rate / rate == i && i * rate % rate == 0) by {
            vstd::arithmetic::div_mod::lemma_div_multiples_vanish(i, rate);
            assert(i * rate == rate * i) by (nonlinear_arith);
            vstd::arithmetic::div_mod::lemma_mod_multiples_basic(i, rate);
        };
        if i + 1 < s.len() {
            assert(spec_lerp(s[i] as int, s[i + 1] as int, 0, rate) == s[i]) by {
                assert((s[i + 1] - s[i]) * 0 == 0) by (nonlinear_arith);
                assert((s[i] - s[i + 1]) * 0 == 0) by (nonlinear_arith);
            };
        }
    };
    assert(r =~= s);
}

/// The mean of each `channels`-sized group of interleaved samples,
/// truncating toward zero; a short trailing group still divides by the
/// channel count.
pub open spec fn spec_downmix(s: Seq<i16>, channels: int) -> Seq<i16> {
    Seq::new(
        ((s.len() + channels - 1) / channels) as nat,
        |i: int|
            spec_trunc_div(
                spec_chunk_sum(s, i * channels, if (i + 1) * channels <= s.len() {
                    (i + 1) * channels
                } else {
                    s.len() as int
                }),
                channels,
            ) as i16,
    )
}

/// The sum of `s[lo..hi]`.
pub open spec fn spec_chunk_sum(s: Seq<i16>, lo: int, hi: int) -> int
    decreases hi - lo,
{
    if lo >= hi {
        0
    } else {
        s[lo] + spec_chunk_sum(s, lo + 1, hi)
    }
}

/// Mixes interleaved channels down to mono by the mean of each group.
pub fn downmix_mono(samples: &[i16], channels: u16) -> (r: Vec<i16>)
    requires
        channels >= 1,
    ensures
        r@ == spec_downmix(samples@, channels as int),
{
    let ghost target = spec_downmix(samples@, channels as int);
    let mut out: Vec<i16> = Vec::new();
    let mut lo: usize = 0;
    let ghost n = ((samples@.len() + channels - 1) / channels as int) as int;
    proof {
        lemma_chunk_count(samples@.len() as int, channels as int);
        if samples@.len() == 0 {
            vstd::arithmetic::div_mod::lemma_basic_div(channels as int - 1, channels as int);
        }
    }
    while lo < samples.len()
        invariant
            lo <= samples@.len(),
            lo < samples@.len() ==> lo as int % (channels as int) == 0,
            lo < samples@.len() ==> out@.len() == lo as int / (channels as int),
            lo == samples@.len() ==> out@.len() == n,
            channels >= 1,
            target == spec_downmix(samples@, channels as int),
            n == (samples@.len() + channels - 1) / channels as int,
            out@.len() <= n,
            forall|j: int| 0 <= j < out@.len() ==> out@[j] == target[j],
        decreases samples@.len() - lo,
    {
        let hi: usize = if samples.len() - lo >= channels as usize {
            lo + channels as usize
        } else {
            samples.len()
        };
        let mut sum: i64 = 0;
        let mut k: usize = lo;
        while k < hi
            invariant
                lo <= k <= hi <= samples@.len(),
                hi - lo <= channels,
                channels >= 1,
                sum == spec_chunk_sum(samples@, lo as int, k as int),
                -32768 * (k - lo) <= sum <= 32767 * (k - lo),
            decreases hi - k,
        {
            proof {
                lemma_chunk_sum_step(samples@, lo as int, k as int, hi as int);
            }
            sum = sum + samples[k] as i64;
            k = k + 1;
        }
        proof {
            lemma_chunk_sum_final(samples@, lo as int, hi as int);
        }
        let mean: i64 = if sum >= 0 {
            sum / channels as i64
        } else {
            -((-sum) / channels as i64)
        };
        let ghost i = lo as int / channels as int;
        proof {
            let ch = channels as int;
            lemma_downmix_chunk(samples@, ch, lo as int, hi as int);
            assert(mean == spec_trunc_div(spec_chunk_sum(samples@, lo as int, hi as int), ch));
            assert(-32768 <= mean <= 32767);
            assert(lo == ch * i) by {
                vstd::arithmetic::div_mod::lemma_fundamental_div_mod(lo as int, ch);
            };
            assert(i * ch == lo && (i + 1) * ch == lo + ch) by (nonlinear_arith)
                requires
                    lo == ch * i,
            ;
            assert(i < n) by {
                lemma_index_step(samples@.len() as int, ch, lo as int, hi as int);
            };
            assert(target[i] == spec_trunc_div(
                spec_chunk_sum(samples@, lo as int, hi as int),
                ch,
            ) as i16);
        }
        out.push(mean as i16);
        proof {
            lemma_index_step(samples@.len() as int, channels as int, lo as int, hi as int);
        }
        lo = hi;
    }
    proof {
        if samples@.len() == 0 {
            assert(n == 0) by {
                vstd::arithmetic::div_mod::lemma_basic_div(channels as int - 1, channels as int);
            };
        }
        assert(out@ =~= target);
    }
    out
}

/// The number of groups is the rounded-up quotient.
proof fn lemma_chunk_count(len: int, ch: int)
    requires
        len >= 0,
        ch >= 1,
    ensures
        (len + ch - 1) / ch >= 0,
        len > 0 ==> (len + ch - 1) / ch >= 1,
{
    vstd::arithmetic::div_mod::lemma_div_is_ordered(0, len + ch - 1, ch);
    if len > 0 {
        vstd::arithmetic::div_mod::lemma_div_is_ordered(ch, len + ch - 1, ch);
        vstd::arithmetic::div_mod::lemma_div_by_multiple(1, ch);
        assert(1 * ch == ch) by (nonlinear_arith);
    }
}

/// Unrolls one step of the chunk sum.
proof fn lemma_chunk_sum_step(s: Seq<i16>, lo: int, k: int, hi: int)
    requires
        lo <= k < hi <= s.len(),
    ensures
        spec_chunk_sum(s, lo, k + 1) == spec_chunk_sum(s, lo, k) + s[k],
    decreases k - lo,
{
    if lo == k {
        assert(spec_chunk_sum(s, k + 1, k + 1) == 0);
    } else {
        lemma_chunk_sum_step(s, lo + 1, k, hi);
    }
}

/// The chunk sum of a group of at most `hi - lo` samples is bounded.
proof fn lemma_chunk_sum_final(s: Seq<i16>, lo: int, hi: int)
    requires
        0 <= lo <= hi <= s.len(),
    ensures
        -32768 * (hi - lo) <= spec_chunk_sum(s, lo, hi) <= 32767 * (hi - lo),
    decreases hi - lo,
{
    if lo < hi {
        lemma_chunk_sum_final(s, lo + 1, hi);
    }
}

/// The mean of one group lies within the 16-bit sample range.
proof fn lemma_downmix_chunk(s: Seq<i16>, ch: int, lo: int, hi: int)
    requires
        ch >= 1,
        0 <= lo < hi <= s.len(),
        hi - lo <= ch,
    ensures
        -32768 <= spec_trunc_div(spec_chunk_sum(s, lo, hi), ch) <= 32767,
{
    let sum = spec_chunk_sum(s, lo, hi);
    lemma_chunk_sum_final(s, lo, hi);
    assert(-32768 * ch <= sum <= 32767 * ch) by (nonlinear_arith)
        requires
            -32768 * (hi - lo) <= sum <= 32767 * (hi - lo) && hi - lo <= ch && 1 <= ch,
    ;
    if sum >= 0 {
        assert(sum / ch <= 32767 * ch / ch) by {
            vstd::arithmetic::div_mod::lemma_div_is_ordered(sum, 32767 * ch, ch);
        };
        assert(32767 * ch / ch == 32767) by {
            vstd::arithmetic::div_mod::lemma_div_by_multiple(32767, ch);
        };
        vstd::arithmetic::div_mod::lemma_div_is_ordered(0, sum, ch);
    } else {
        assert((-sum) / ch <= 32768 * ch / ch) by {
            vstd::arithmetic::div_mod::lemma_div_is_ordered(-sum, 32768 * ch, ch);
        };
        assert(32768 * ch / ch == 32768) by {
            vstd::arithmetic::div_mod::lemma_div_by_multiple(32768, ch);
        };
        vstd::arithmetic::div_mod::lemma_div_is_ordered(0, -sum, ch);
    }
}

/// Consuming one full (or final short) group advances the output index by
/// exactly one.
proof fn lemma_index_step(len: int, ch: int, lo: int, hi: int)
    requires
        ch >= 1,
        0 <= lo < hi <= len,
        lo % ch == 0,
        hi == if len - lo >= ch {
            lo + ch
        } else {
            len
        },
    ensures
        hi < len ==> hi % ch == 0,
        hi < len ==> hi / ch == lo / ch + 1,
        hi < len ==> hi / ch < (len + ch - 1) / ch,
        hi == len ==> lo / ch + 1 == (len + ch - 1) / ch,
{
    vstd::arithmetic::div_mod::lemma_fundamental_div_mod(lo, ch);
    let q = lo / ch;
    assert(lo == ch * q);
    if len - lo >= ch {
        assert(hi == ch * (q + 1)) by (nonlinear_arith)
            requires
                lo == ch * q && hi == lo + ch,
        ;
        vstd::arithmetic::div_mod::lemma_fundamental_div_mod_converse_div(hi, ch, q + 1, 0);
        vstd::arithmetic::div_mod::lemma_fundamental_div_mod_converse_mod(hi, ch, q + 1, 0);
        assert(hi % ch == 0 && hi / ch == q + 1);
        if hi < len {
            assert(len + ch - 1 >= hi + ch);
            assert(hi + ch == ch * (q + 2)) by (nonlinear_arith)
                requires
                    hi == ch * (q + 1),
            ;
            vstd::arithmetic::div_mod::lemma_fundamental_div_mod_converse_div(
                hi + ch,
                ch,
                q + 2,
                0,
            );
            vstd::arithmetic::div_mod::lemma_div_is_ordered(hi + ch, len + ch - 1, ch);
        } else {
            assert(hi == len);
            assert(len + ch - 1 == ch * (q + 1) + (ch - 1)) by (nonlinear_arith)
                requires
                    len == ch * (q + 1),
            ;
            vstd::arithmetic::div_mod::lemma_fundamental_div_mod_converse_div(
                len + ch - 1,
                ch,
                q + 1,
                ch - 1,
            );
        }
    } else {
        let r = len - lo;
        assert(hi == len && 1 <= r < ch);
        assert(len + ch - 1 == ch * (q + 1) + (r - 1)) by (nonlinear_arith)
            requires
                lo == ch * q && len == lo + r,
        ;
        vstd::arithmetic::div_mod::lemma_fundamental_div_mod_converse_div(
            len + ch - 1,
            ch,
            q + 1,
            r - 1,
        );
    }
}

/// The `i`-th frame of `d` cut into `fs`-byte frames, the last zero-padded.
pub open spec fn spec_frame_at(d: Seq<u8>, fs: int, i: int) -> Seq<u8> {
    Seq::new(
        fs as nat,
        |j: int|
            if i * fs + j < d.len() {
                d[i * fs + j]
            } else {
                0u8
            },
    )
}

/// `d` cut into `fs`-byte frames; the last frame is padded with zeros.
pub open spec fn spec_frames(d: Seq<u8>, fs: int) -> Seq<Seq<u8>> {
    Seq::new(((d.len() + fs - 1) / fs) as nat, |i: int| spec_frame_at(d, fs, i))
}

/// Cuts raw pre-encoded audio into fixed-size frames, zero-padding the
/// last partial frame.
pub fn frames_from_raw(data: &[u8], frame_size: usize) -> (r: Vec<Vec<u8>>)
    requires
        frame_size >= 1,
        data@.len() + frame_size <= usize::MAX,
    ensures
        r.deep_view() == spec_frames(data@, frame_size as int),
{
    let ghost target = spec_frames(data@, frame_size as int);
    let mut out: Vec<Vec<u8>> = Vec::new();
    let mut lo: usize = 0;
    let ghost fs = frame_size as int;
    proof {
        lemma_chunk_count(data@.len() as int, fs);
        if data@.len() == 0 {
            vstd::arithmetic::div_mod::lemma_basic_div(fs - 1, fs);
        }
    }
    while lo < data.len()
        invariant
            lo <= data@.len(),
            lo < data@.len() ==> lo as int % fs == 0,
            lo < data@.len() ==> out@.len() == lo as int / fs,
            lo == data@.len() ==> out@.len() == target.len(),
            frame_size >= 1,
            fs == frame_size as int,
            data@.len() + frame_size <= usize::MAX,
            target == spec_frames(data@, fs),
            out@.len() <= target.len(),
            forall|j: int| 0 <= j < out@.len() ==> #[trigger] out@[j]@ == target[j],
        decreases data@.len() - lo,
    {
        let hi: usize = if data.len() - lo >= frame_size {
            lo + frame_size
        } else {
            data.len()
        };
        let mut frame: Vec<u8> = Vec::new();
        let mut k: usize = lo;
        while k < hi
            invariant
                lo <= k <= hi <= data@.len(),
                frame@.len() == k - lo,
                forall|j: int| 0 <= j < k - lo ==> frame@[j] == data@[lo + j],
            decreases hi - k,
        {
            frame.push(data[k]);
            k = k + 1;
        }
        while frame.len() < frame_size
            invariant
                hi - lo <= frame@.len() <= frame_size,
                lo <= hi <= data@.len(),
                forall|j: int| 0 <= j < hi - lo ==> frame@[j] == data@[lo + j],
                forall|j: int| hi - lo <= j < frame@.len() ==> frame@[j] == 0u8,
            decreases frame_size - frame@.len(),
        {
            frame.push(0);
        }
        let ghost i = lo as int / fs;
        proof {
            lemma_index_step(data@.len() as int, fs, lo as int, hi as int);
            assert(lo == fs * i) by {
                vstd::arithmetic::div_mod::lemma_fundamental_div_mod(lo as int, fs);
            };
            assert(i * fs == fs * i) by (nonlinear_arith);
            assert(frame@ =~= spec_frame_at(data@, fs, i));
        }
        out.push(frame);
        lo = hi;
    }
    proof {
        if data@.len() == 0 {
            assert((0 + fs - 1) / fs == 0) by {
                vstd::arithmetic::div_mod::lemma_basic_div(fs - 1, fs);
            };
        }
        assert(out.deep_view() =~~= target);
    }
    out
}

} // verus!
