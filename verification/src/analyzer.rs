//! The audio analyzer's counting pass and its per-page rollup.
//!
//! Everything countable is computed here exactly: energy, peak, clipping,
//! zero crossings, glitches, repeated samples, DC sum, silence, and the
//! binned histogram of dominant frequencies. The decibel conversions and
//! the windowed FFT that finds a frame's dominant frequency are floating
//! point and live outside this crate; the analyzer hands out the sliding
//! 512-sample window and takes the found frequency back as an integer.

use vstd::prelude::*;

verus! {

/// Samples per FFT window.
pub const FFT_SIZE: usize = 512;

/// Histogram bin width for dominant frequencies, in hertz.
pub const FREQ_BIN_WIDTH_HZ: u32 = 50;

/// A sample-to-sample jump larger than this counts as a glitch.
pub const GLITCH_THRESHOLD: i16 = 20000;

/// Samples at or above this magnitude count as clipped.
pub const CLIPPING_THRESHOLD: i16 = 32600;

/// The magnitude of a sample, saturating at 32767.
pub open spec fn spec_sat_abs(s: i16) -> int {
    if s == i16::MIN {
        32767
    } else if s < 0 {
        -(s as int)
    } else {
        s as int
    }
}

/// The sum of squared samples.
pub open spec fn spec_sum_squares(s: Seq<i16>) -> int
    decreases s.len(),
{
    if s.len() == 0 {
        0
    } else {
        spec_sum_squares(s.drop_last()) + s.last() * s.last()
    }
}

/// The largest saturated magnitude.
pub open spec fn spec_peak(s: Seq<i16>) -> int
    decreases s.len(),
{
    if s.len() == 0 {
        0
    } else {
        let rest = spec_peak(s.drop_last());
        if spec_sat_abs(s.last()) > rest {
            spec_sat_abs(s.last())
        } else {
            rest
        }
    }
}

/// How many samples are at or beyond the clipping threshold.
pub open spec fn spec_count_clipped(s: Seq<i16>) -> int
    decreases s.len(),
{
    if s.len() == 0 {
        0
    } else {
        spec_count_clipped(s.drop_last()) + if spec_sat_abs(s.last()) >= 32600 {
            1int
        } else {
            0int
        }
    }
}

/// The sample that precedes `s[i]`: its left neighbour, or the carried
/// previous sample for the first element.
pub open spec fn spec_prev_of(prev: i16, s: Seq<i16>, i: int) -> i16 {
    if i == 0 {
        prev
    } else {
        s[i - 1]
    }
}

/// Whether a pair of consecutive samples crosses zero.
pub open spec fn spec_is_crossing(a: i16, b: i16) -> bool {
    (a >= 0 && b < 0) || (a < 0 && b >= 0)
}

/// How many zero crossings the block holds, against its carried previous
/// sample.
pub open spec fn spec_count_crossings(prev: i16, s: Seq<i16>) -> int
    decreases s.len(),
{
    if s.len() == 0 {
        0
    } else {
        spec_count_crossings(prev, s.drop_last()) + if spec_is_crossing(
            spec_prev_of(prev, s, s.len() - 1),
            s.last(),
        ) {
            1int
        } else {
            0int
        }
    }
}

/// Whether a sample-to-sample step is a glitch.
pub open spec fn spec_is_glitch(a: i16, b: i16) -> bool {
    (if b >= a {
        b - a
    } else {
        a - b
    }) > 20000
}

/// How many glitches the block holds.
pub open spec fn spec_count_glitches(prev: i16, s: Seq<i16>) -> int
    decreases s.len(),
{
    if s.len() == 0 {
        0
    } else {
        spec_count_glitches(prev, s.drop_last()) + if spec_is_glitch(
            spec_prev_of(prev, s, s.len() - 1),
            s.last(),
        ) {
            1int
        } else {
            0int
        }
    }
}

/// How many samples repeat their predecessor.
pub open spec fn spec_count_repeated(prev: i16, s: Seq<i16>) -> int
    decreases s.len(),
{
    if s.len() == 0 {
        0
    } else {
        spec_count_repeated(prev, s.drop_last()) + if s.last() == spec_prev_of(
            prev,
            s,
            s.len() - 1,
        ) {
            1int
        } else {
            0int
        }
    }
}

/// The plain sum of the samples, for the DC offset.
pub open spec fn spec_dc_sum(s: Seq<i16>) -> int
    decreases s.len(),
{
    if s.len() == 0 {
        0
    } else {
        spec_dc_sum(s.drop_last()) + s.last()
    }
}

/// Whether a block of `n` samples with energy `ss` is silence: its RMS
/// lies below -50 dBFS. In integers: `ss / n < 32768^2 * 10^-5`.
pub open spec fn spec_is_silence(ss: int, n: int) -> bool {
    ss * 100000 < n * 1073741824
}

/// What the counting pass reports for one block of samples.
#[derive(Debug, Clone, PartialEq, Eq, Structural)]
pub struct AudioAnalysis {
    /// Sum of squared samples; the RMS is `sqrt(sum_squares / n)`.
    pub sum_squares: u64,
    /// Largest magnitude seen.
    pub peak: i16,
    /// Samples at or beyond the clipping threshold.
    pub clipped_samples: u64,
    /// Sample-to-sample jumps beyond the glitch threshold.
    pub glitch_count: u64,
    /// Sign changes against the previous sample.
    pub zero_crossings: u64,
    /// Samples equal to their predecessor.
    pub repeated_samples: u64,
    /// Plain sum of the samples.
    pub dc_sum: i64,
    /// How many samples the block held.
    pub sample_count: u64,
    /// Dominant frequency in hertz, filled in by the FFT stage; 0 while
    /// unknown or insignificant.
    pub dominant_freq_hz: u32,
    /// Whether the block's RMS lies below -50 dBFS.
    pub is_silence: bool,
}

/// An all-zero analysis, reported for an empty block.
pub open spec fn spec_analysis_default() -> AudioAnalysis {
    AudioAnalysis {
        sum_squares: 0,
        peak: 0,
        clipped_samples: 0,
        glitch_count: 0,
        zero_crossings: 0,
        repeated_samples: 0,
        dc_sum: 0,
        sample_count: 0,
        dominant_freq_hz: 0,
        is_silence: false,
    }
}

/// The buffer after a block: everything, or only the last 512 samples
/// once that many have accumulated.
pub open spec fn spec_window_after(b: Seq<i16>) -> Seq<i16> {
    if b.len() >= 512 {
        b.skip(b.len() - 512)
    } else {
        b
    }
}

/// The streaming analyzer: carries the previous sample across blocks and
/// accumulates a sliding window for the FFT stage.
#[derive(Debug)]
pub struct AudioAnalyzer {
    /// Sample rate of the stream, in hertz.
    pub sample_rate: u32,
    /// The last sample of the previous block.
    pub last_sample: Option<i16>,
    /// Up to 512 recent samples for the FFT stage.
    pub sample_buffer: Vec<i16>,
}

impl AudioAnalyzer {
    /// The buffer never grows beyond one FFT window.
    pub open spec fn wf(&self) -> bool {
        self.sample_buffer@.len() <= 512
    }

    /// A fresh analyzer for a sample rate.
    pub fn new(sample_rate: u32) -> (r: Self)
        ensures
            r.sample_rate == sample_rate,
            r.last_sample is None,
            r.sample_buffer@.len() == 0,
            r.wf(),
    {
        AudioAnalyzer { sample_rate, last_sample: None, sample_buffer: Vec::new() }
    }

    /// Analyzes one block of samples in a single pass. An empty block
    /// reports the all-zero analysis and changes nothing. The carried
    /// previous sample of the first block is the block's own first sample.
    pub fn analyze(&mut self, samples: &[i16]) -> (r: AudioAnalysis)
        requires
            old(self).wf(),
            samples@.len() <= 0x0fff_ffff,
        ensures
            final(self).wf(),
            final(self).sample_rate == old(self).sample_rate,
            samples@.len() == 0 ==> r == spec_analysis_default() && *final(self) == *old(self),
            samples@.len() > 0 ==> ({
                let prev0 = match old(self).last_sample {
                    Some(p) => p,
                    None => samples@[0],
                };
                &&& r.sum_squares == spec_sum_squares(samples@)
                &&& r.peak == spec_peak(samples@)
                &&& r.clipped_samples == spec_count_clipped(samples@)
                &&& r.zero_crossings == spec_count_crossings(prev0, samples@)
                &&& r.glitch_count == spec_count_glitches(prev0, samples@)
                &&& r.repeated_samples == spec_count_repeated(prev0, samples@)
                &&& r.dc_sum == spec_dc_sum(samples@)
                &&& r.sample_count == samples@.len()
                &&& r.dominant_freq_hz == 0
                &&& r.is_silence == spec_is_silence(
                    spec_sum_squares(samples@),
                    samples@.len() as int,
                )
                &&& final(self).last_sample == Some(samples@.last())
                &&& final(self).sample_buffer@ == spec_window_after(
                    old(self).sample_buffer@ + samples@,
                )
            }),
    {
        if samples.len() == 0 {
            return AudioAnalysis {
                sum_squares: 0,
                peak: 0,
                clipped_samples: 0,
                glitch_count: 0,
                zero_crossings: 0,
                repeated_samples: 0,
                dc_sum: 0,
                sample_count: 0,
                dominant_freq_hz: 0,
                is_silence: false,
            };
        }
        let ghost s = samples@;
        let prev0: i16 = match self.last_sample {
            Some(p) => p,
            None => samples[0],
        };
        let mut sum_squares: u64 = 0;
        let mut peak: i16 = 0;
        let mut clipped: u64 = 0;
        let mut crossings: u64 = 0;
        let mut glitches: u64 = 0;
        let mut repeated: u64 = 0;
        let mut dc_sum: i64 = 0;
        let mut prev: i16 = prev0;
        let mut i: usize = 0;
        while i < samples.len()
            invariant
                0 < samples@.len() <= 0x0fff_ffff,
                i <= samples@.len(),
                s == samples@,
                sum_squares == spec_sum_squares(s.take(i as int)),
                sum_squares <= i * 0x4000_0000,
                peak == spec_peak(s.take(i as int)),
                0 <= peak,
                clipped == spec_count_clipped(s.take(i as int)),
                clipped <= i,
                crossings == spec_count_crossings(prev0, s.take(i as int)),
                crossings <= i,
                glitches == spec_count_glitches(prev0, s.take(i as int)),
                glitches <= i,
                repeated == spec_count_repeated(prev0, s.take(i as int)),
                repeated <= i,
                dc_sum == spec_dc_sum(s.take(i as int)),
                -32768 * i <= dc_sum <= 32767 * i,
                prev == spec_prev_of(prev0, s, i as int),
            decreases samples.len() - i,
        {
            let sample = samples[i];
            proof {
                assert(s.take(i + 1).drop_last() =~= s.take(i as int));
                assert(s.take(i + 1).last() == s[i as int]);
                assert(spec_prev_of(prev0, s.take(i + 1), i as int) == spec_prev_of(
                    prev0,
                    s,
                    i as int,
                ));
            }
            let abs_sample: i16 = if sample == i16::MIN {
                32767
            } else if sample < 0 {
                -sample
            } else {
                sample
            };
            proof {
                assert(0 <= sample as int * sample as int <= 0x4000_0000) by (nonlinear_arith)
                    requires
                        -32768 <= sample <= 32767,
                ;
            }
            sum_squares = sum_squares + (sample as i64 * sample as i64) as u64;
            if abs_sample > peak {
                peak = abs_sample;
            }
            if abs_sample >= CLIPPING_THRESHOLD {
                clipped = clipped + 1;
            }
            if (prev >= 0 && sample < 0) || (prev < 0 && sample >= 0) {
                crossings = crossings + 1;
            }
            let diff: i32 = if sample as i32 >= prev as i32 {
                sample as i32 - prev as i32
            } else {
                prev as i32 - sample as i32
            };
            if diff > GLITCH_THRESHOLD as i32 {
                glitches = glitches + 1;
            }
            if sample == prev {
                repeated = repeated + 1;
            }
            dc_sum = dc_sum + sample as i64;
            prev = sample;
            i = i + 1;
        }
        proof {
            assert(s.take(s.len() as int) =~= s);
        }
        self.last_sample = Some(prev);

        let n: u64 = samples.len() as u64;
        let is_silence = (sum_squares as u128) * 100000 < (n as u128) * 1073741824;

        let ghost combined = old(self).sample_buffer@ + samples@;
        self.sample_buffer.extend_from_slice(samples);
        assert(self.sample_buffer@ == combined);
        if self.sample_buffer.len() >= FFT_SIZE {
            let start = self.sample_buffer.len() - FFT_SIZE;
            let mut window: Vec<i16> = Vec::new();
            let mut k: usize = start;
            while k < self.sample_buffer.len()
                invariant
                    start <= k <= self.sample_buffer@.len(),
                    start == self.sample_buffer@.len() - 512,
                    self.sample_buffer@ == combined,
                    window@.len() == k - start,
                    forall|j: int|
                        0 <= j < k - start ==> window@[j] == self.sample_buffer@[start + j],
                decreases self.sample_buffer@.len() - k,
            {
                window.push(self.sample_buffer[k]);
                k = k + 1;
            }
            assert(window@ =~= spec_window_after(combined));
            self.sample_buffer = window;
        }

        AudioAnalysis {
            sum_squares,
            peak,
            clipped_samples: clipped,
            glitch_count: glitches,
            zero_crossings: crossings,
            repeated_samples: repeated,
            dc_sum,
            sample_count: n,
            dominant_freq_hz: 0,
            is_silence,
        }
    }

    /// The sliding window the FFT stage reads: the last 512 samples, once
    /// that many have accumulated.
    pub fn fft_window(&self) -> (r: Option<Vec<i16>>)
        requires
            self.wf(),
        ensures
            self.sample_buffer@.len() == 512 <==> r is Some,
            r matches Some(w) ==> w@ == self.sample_buffer@,
    {
        if self.sample_buffer.len() == FFT_SIZE {
            let mut window: Vec<i16> = Vec::new();
            let mut k: usize = 0;
            while k < self.sample_buffer.len()
                invariant
                    k <= self.sample_buffer@.len(),
                    window@.len() == k,
                    forall|j: int| 0 <= j < k ==> window@[j] == self.sample_buffer@[j],
                decreases self.sample_buffer@.len() - k,
            {
                window.push(self.sample_buffer[k]);
                k = k + 1;
            }
            assert(window@ =~= self.sample_buffer@);
            Some(window)
        } else {
            None
        }
    }

    /// Forgets all carried state, for a new page.
    pub fn reset(&mut self)
        ensures
            final(self).sample_rate == old(self).sample_rate,
            final(self).last_sample is None,
            final(self).sample_buffer@.len() == 0,
            final(self).wf(),
    {
        self.last_sample = None;
        self.sample_buffer.clear();
    }
}

/// A block of zeros has no energy and reads as silence, whatever came
/// before it.
pub proof fn lemma_zero_block_is_silence(s: Seq<i16>)
    requires
        s.len() > 0,
        forall|i: int| 0 <= i < s.len() ==> s[i] == 0,
    ensures
        spec_sum_squares(s) == 0,
        spec_is_silence(spec_sum_squares(s), s.len() as int),
    decreases s.len(),
{
    assert(s.last() == 0);
    if s.len() == 1 {
        assert(s.drop_last().len() == 0);
        assert(spec_sum_squares(s.drop_last()) == 0);
    } else {
        assert(forall|i: int| 0 <= i < s.drop_last().len() ==> s.drop_last()[i] == 0);
        lemma_zero_block_is_silence(s.drop_last());
    }
    assert(spec_sum_squares(s) == 0);
    assert(s.len() as int * 1073741824 > 0);
}


/// Cutting a stream into blocks changes nothing: analyzing `a + b` in one
/// pass counts exactly what analyzing `a` and then `b` counts, provided
/// the second block is judged against the first block's last sample --
/// which is just what the analyzer carries between calls.
pub proof fn lemma_analysis_split(prev: i16, a: Seq<i16>, b: Seq<i16>)
    requires
        a.len() > 0,
    ensures
        spec_sum_squares(a + b) == spec_sum_squares(a) + spec_sum_squares(b),
        spec_dc_sum(a + b) == spec_dc_sum(a) + spec_dc_sum(b),
        spec_count_clipped(a + b) == spec_count_clipped(a) + spec_count_clipped(b),
        spec_count_crossings(prev, a + b) == spec_count_crossings(prev, a)
            + spec_count_crossings(a.last(), b),
        spec_count_glitches(prev, a + b) == spec_count_glitches(prev, a) + spec_count_glitches(
            a.last(),
            b,
        ),
        spec_count_repeated(prev, a + b) == spec_count_repeated(prev, a) + spec_count_repeated(
            a.last(),
            b,
        ),
    decreases b.len(),
{
    if b.len() == 0 {
        assert(a + b =~= a);
    } else {
        let ab = a + b;
        assert(ab.drop_last() =~= a + b.drop_last());
        assert(ab.last() == b.last());
        lemma_analysis_split(prev, a, b.drop_last());
        if b.len() >= 2 {
            assert(spec_prev_of(prev, ab, ab.len() - 1) == b[b.len() - 2]);
            assert(spec_prev_of(a.last(), b, b.len() - 1) == b[b.len() - 2]);
        } else {
            assert(spec_prev_of(prev, ab, ab.len() - 1) == a.last());
            assert(spec_prev_of(a.last(), b, b.len() - 1) == a.last());
        }
    }
}

/// How many frames of the histogram fell in one bin.
pub open spec fn spec_bin_count(bins: Seq<(u32, u32)>, bin: u32) -> int
    decreases bins.len(),
{
    if bins.len() == 0 {
        0
    } else {
        spec_bin_count(bins.drop_last(), bin) + if bins.last().0 == bin {
            bins.last().1 as int
        } else {
            0int
        }
    }
}

/// Running audio statistics of one page.
#[derive(Debug)]
pub struct AudioStats {
    /// Energy of the loudest frame so far (by RMS).
    pub peak_rms_num: u64,
    /// Sample count of that frame; 0 while no frame had energy.
    pub peak_rms_den: u64,
    /// Largest magnitude of any frame.
    pub max_peak: i16,
    /// Clipped samples over the page.
    pub total_clipped: u64,
    /// Glitches over the page.
    pub total_glitches: u64,
    /// Repeated samples over the page.
    pub total_repeated: u64,
    /// Zero crossings over the page.
    pub total_zero_crossings: u64,
    /// Samples analyzed over the page.
    pub total_samples: u64,
    /// Frames analyzed.
    pub frame_count: u64,
    /// Frames that read as silence.
    pub silent_frames: u64,
    /// Frames with nonzero energy: the denominator of the RMS average,
    /// so silent frames do not poison it.
    pub rms_frames: u64,
    /// Histogram of dominant frequencies, keyed by 50 Hz bin.
    pub freq_bins: Vec<(u32, u32)>,
}

/// Whether a frame with energy `ss` over `n` samples is louder (by RMS)
/// than the stored loudest frame `num / den`; an empty record loses to
/// any frame with energy.
pub open spec fn spec_louder(ss: int, n: int, num: int, den: int) -> bool {
    if den == 0 {
        ss > 0
    } else {
        ss * den > num * n
    }
}

impl AudioStats {
    /// Bounds every reachable rollup satisfies.
    pub open spec fn wf(&self) -> bool {
        &&& forall|j: int, k: int|
            0 <= j < k < self.freq_bins@.len() ==> self.freq_bins@[j].0 != self.freq_bins@[k].0
        &&& forall|j: int|
            0 <= j < self.freq_bins@.len() ==> (#[trigger] self.freq_bins@[j]).0 <= 85899345
                && self.freq_bins@[j].1 <= self.frame_count
        &&& 0 <= self.max_peak
    }

    /// A fresh rollup.
    pub fn new() -> (r: Self)
        ensures
            r.peak_rms_num == 0,
            r.peak_rms_den == 0,
            r.max_peak == 0,
            r.total_clipped == 0,
            r.total_glitches == 0,
            r.total_repeated == 0,
            r.total_zero_crossings == 0,
            r.total_samples == 0,
            r.frame_count == 0,
            r.silent_frames == 0,
            r.rms_frames == 0,
            r.freq_bins@.len() == 0,
            r.wf(),
    {
        AudioStats {
            peak_rms_num: 0,
            peak_rms_den: 0,
            max_peak: 0,
            total_clipped: 0,
            total_glitches: 0,
            total_repeated: 0,
            total_zero_crossings: 0,
            total_samples: 0,
            frame_count: 0,
            silent_frames: 0,
            rms_frames: 0,
            freq_bins: Vec::new(),
        }
    }

    /// Folds one frame's analysis into the page: totals, silent and
    /// energetic frame counts, running maxima, and the frequency
    /// histogram.
    pub fn update(&mut self, analysis: &AudioAnalysis, sample_count: u64)
        requires
            old(self).wf(),
            old(self).frame_count < 0xffff_ffff,
            old(self).total_samples + sample_count < u64::MAX,
            old(self).total_clipped + analysis.clipped_samples < u64::MAX,
            old(self).total_glitches + analysis.glitch_count < u64::MAX,
            old(self).total_repeated + analysis.repeated_samples < u64::MAX,
            old(self).total_zero_crossings + analysis.zero_crossings < u64::MAX,
            old(self).silent_frames < u64::MAX,
            old(self).rms_frames < u64::MAX,
        ensures
            final(self).wf(),
            final(self).frame_count == old(self).frame_count + 1,
            final(self).total_samples == old(self).total_samples + sample_count,
            final(self).total_clipped == old(self).total_clipped + analysis.clipped_samples,
            final(self).total_glitches == old(self).total_glitches + analysis.glitch_count,
            final(self).total_repeated == old(self).total_repeated + analysis.repeated_samples,
            final(self).total_zero_crossings == old(self).total_zero_crossings
                + analysis.zero_crossings,
            final(self).silent_frames == old(self).silent_frames + if analysis.is_silence {
                1int
            } else {
                0int
            },
            final(self).rms_frames == old(self).rms_frames + if analysis.sum_squares > 0 {
                1int
            } else {
                0int
            },
            spec_louder(
                analysis.sum_squares as int,
                analysis.sample_count as int,
                old(self).peak_rms_num as int,
                old(self).peak_rms_den as int,
            ) ==> final(self).peak_rms_num == analysis.sum_squares && final(self).peak_rms_den
                == analysis.sample_count,
            !spec_louder(
                analysis.sum_squares as int,
                analysis.sample_count as int,
                old(self).peak_rms_num as int,
                old(self).peak_rms_den as int,
            ) ==> final(self).peak_rms_num == old(self).peak_rms_num && final(self).peak_rms_den
                == old(self).peak_rms_den,
            final(self).max_peak == if analysis.peak > old(self).max_peak {
                analysis.peak
            } else {
                old(self).max_peak
            },
            forall|b: u32|
                spec_bin_count(final(self).freq_bins@, b) == spec_bin_count(
                    old(self).freq_bins@,
                    b,
                ) + if analysis.dominant_freq_hz > 0 && b == analysis.dominant_freq_hz / 50 {
                    1int
                } else {
                    0int
                },
    {
        self.frame_count = self.frame_count + 1;
        self.total_samples = self.total_samples + sample_count;
        self.total_clipped = self.total_clipped + analysis.clipped_samples;
        self.total_glitches = self.total_glitches + analysis.glitch_count;
        self.total_repeated = self.total_repeated + analysis.repeated_samples;
        self.total_zero_crossings = self.total_zero_crossings + analysis.zero_crossings;
        if analysis.is_silence {
            self.silent_frames = self.silent_frames + 1;
        }
        if analysis.sum_squares > 0 {
            self.rms_frames = self.rms_frames + 1;
        }
        let louder = if self.peak_rms_den == 0 {
            analysis.sum_squares > 0
        } else {
            proof {
                let m: int = 0xffff_ffff_ffff_ffff;
                assert(analysis.sum_squares as int * self.peak_rms_den as int <= m * m
                    && self.peak_rms_num as int * analysis.sample_count as int <= m * m)
                    by (nonlinear_arith)
                    requires
                        0 <= analysis.sum_squares as int <= m,
                        0 <= self.peak_rms_den as int <= m,
                        0 <= self.peak_rms_num as int <= m,
                        0 <= analysis.sample_count as int <= m,
                ;
            }
            analysis.sum_squares as u128 * self.peak_rms_den as u128 > self.peak_rms_num as u128
                * analysis.sample_count as u128
        };
        if louder {
            self.peak_rms_num = analysis.sum_squares;
            self.peak_rms_den = analysis.sample_count;
        }
        if analysis.peak > self.max_peak {
            self.max_peak = analysis.peak;
        }
        if analysis.dominant_freq_hz > 0 {
            let bin: u32 = analysis.dominant_freq_hz / FREQ_BIN_WIDTH_HZ;
            assert(bin <= 85899345);
            self.bump_bin(bin);
        }
    }

    /// Adds one observation of a frequency bin to the histogram.
    fn bump_bin(&mut self, bin: u32)
        requires
            forall|j: int, k: int|
                0 <= j < k < old(self).freq_bins@.len() ==> old(self).freq_bins@[j].0 != old(self).freq_bins@[k].0,
            forall|j: int|
                0 <= j < old(self).freq_bins@.len() ==> (#[trigger] old(self).freq_bins@[j]).1
                    < u32::MAX,
        ensures
            final(self).freq_bins@.len() == old(self).freq_bins@.len() || final(self).freq_bins@.len()
                == old(self).freq_bins@.len() + 1,
            forall|j: int|
                0 <= j < old(self).freq_bins@.len() ==> (#[trigger] final(self).freq_bins@[j]).0
                    == old(self).freq_bins@[j].0 && final(self).freq_bins@[j].1 <= old(self).freq_bins@[j].1 + 1,
            final(self).freq_bins@.len() > old(self).freq_bins@.len() ==> final(self).freq_bins@.last()
                == (bin, 1u32),
            forall|j: int, k: int|
                0 <= j < k < final(self).freq_bins@.len() ==> final(self).freq_bins@[j].0
                    != final(self).freq_bins@[k].0,
            forall|b: u32|
                spec_bin_count(final(self).freq_bins@, b) == spec_bin_count(old(self).freq_bins@, b)
                    + if b == bin {
                    1int
                } else {
                    0int
                },
            final(self).peak_rms_num == old(self).peak_rms_num,
            final(self).peak_rms_den == old(self).peak_rms_den,
            final(self).max_peak == old(self).max_peak,
            final(self).total_clipped == old(self).total_clipped,
            final(self).total_glitches == old(self).total_glitches,
            final(self).total_repeated == old(self).total_repeated,
            final(self).total_zero_crossings == old(self).total_zero_crossings,
            final(self).total_samples == old(self).total_samples,
            final(self).frame_count == old(self).frame_count,
            final(self).silent_frames == old(self).silent_frames,
            final(self).rms_frames == old(self).rms_frames,
    {
        let ghost bins0 = self.freq_bins@;
        let mut j: usize = 0;
        while j < self.freq_bins.len()
            invariant
                j <= self.freq_bins@.len(),
                *self == *old(self),
                bins0 == old(self).freq_bins@,
                forall|k: int|
                    0 <= k < bins0.len() ==> (#[trigger] bins0[k]).1 < u32::MAX,
                forall|k: int| 0 <= k < j ==> (#[trigger] bins0[k]).0 != bin,
                forall|a: int, c: int|
                    0 <= a < c < bins0.len() ==> (#[trigger] bins0[a]).0 != (#[trigger] bins0[c]).0,
            decreases self.freq_bins@.len() - j,
        {
            let entry = self.freq_bins[j];
            if entry.0 == bin {
                self.freq_bins.set(j, (bin, entry.1 + 1));
                proof {
                    lemma_bin_count_update(bins0, j as int, bin);
                    assert(self.freq_bins@ =~= bins0.update(
                        j as int,
                        (bin, (bins0[j as int].1 + 1) as u32),
                    ));
                    assert(bins0[j as int].0 == bin);
                    assert forall|a: int|
                        0 <= a < self.freq_bins@.len() implies (#[trigger] self.freq_bins@[a]).0
                        == bins0[a].0 by {
                        if a == j {
                            assert(self.freq_bins@[a] == (bin, (bins0[j as int].1 + 1) as u32));
                        } else {
                            assert(self.freq_bins@[a] == bins0[a]);
                        }
                    };
                    assert forall|a: int, c: int|
                        0 <= a < c < self.freq_bins@.len() implies self.freq_bins@[a].0
                        != self.freq_bins@[c].0 by {
                        assert(self.freq_bins@[a].0 == bins0[a].0);
                        assert(self.freq_bins@[c].0 == bins0[c].0);
                        assert(bins0[a].0 != bins0[c].0);
                    };
                }
                return ;
            }
            j = j + 1;
        }
        self.freq_bins.push((bin, 1));
        proof {
            lemma_bin_count_push(bins0, bin);
            assert(self.freq_bins@ =~= bins0.push((bin, 1u32)));
            assert(forall|k: int| 0 <= k < bins0.len() ==> (#[trigger] bins0[k]).0 != bin);
            assert(forall|a: int|
                0 <= a < bins0.len() ==> (#[trigger] self.freq_bins@[a]) == bins0[a]);
            assert forall|a: int, c: int|
                0 <= a < c < self.freq_bins@.len() implies self.freq_bins@[a].0
                != self.freq_bins@[c].0 by {
                if c < bins0.len() {
                    assert(self.freq_bins@[a] == bins0[a] && self.freq_bins@[c] == bins0[c]);
                } else {
                    assert(self.freq_bins@[a] == bins0[a] && self.freq_bins@[c] == (bin, 1u32));
                    assert(bins0[a].0 != bin);
                }
            };
        }
    }

    /// The reported dominant frequency of the page: the centre of the
    /// fullest histogram bin, or 0 when no frame reported a frequency.
    pub fn dominant_freq_hz(&self) -> (r: u32)
        requires
            self.wf(),
        ensures
            self.freq_bins@.len() == 0 ==> r == 0,
            self.freq_bins@.len() > 0 ==> exists|j: int|
                0 <= j < self.freq_bins@.len() && r == (#[trigger] self.freq_bins@[j]).0 * 50 + 25
                    && forall|k: int|
                    0 <= k < self.freq_bins@.len() ==> (#[trigger] self.freq_bins@[k]).1
                        <= self.freq_bins@[j].1,
    {
        if self.freq_bins.len() == 0 {
            return 0;
        }
        let mut best: usize = 0;
        let mut j: usize = 1;
        while j < self.freq_bins.len()
            invariant
                1 <= j <= self.freq_bins@.len(),
                best < j,
                forall|k: int|
                    0 <= k < j ==> (#[trigger] self.freq_bins@[k]).1
                        <= self.freq_bins@[best as int].1,
            decreases self.freq_bins@.len() - j,
        {
            if self.freq_bins[j].1 > self.freq_bins[best].1 {
                best = j;
            }
            j = j + 1;
        }
        self.freq_bins[best].0 * 50 + 25
    }
}

/// Incrementing one entry's count adds one to that bin's total and
/// nothing to any other.
proof fn lemma_bin_count_update(bins: Seq<(u32, u32)>, j: int, bin: u32)
    requires
        0 <= j < bins.len(),
        bins[j].0 == bin,
        bins[j].1 < u32::MAX,
    ensures
        forall|b: u32|
            spec_bin_count(bins.update(j, (bin, (bins[j].1 + 1) as u32)), b) == spec_bin_count(
                bins,
                b,
            ) + if b == bin {
                1int
            } else {
                0int
            },
{
    assert forall|b: u32|
        spec_bin_count(bins.update(j, (bin, (bins[j].1 + 1) as u32)), b) == spec_bin_count(bins, b)
            + if b == bin {
            1int
        } else {
            0int
        } by {
        lemma_bin_count_update_one(bins, j, bin, b);
    };
}

/// The single-bin core of `lemma_bin_count_update`.
proof fn lemma_bin_count_update_one(bins: Seq<(u32, u32)>, j: int, bin: u32, b: u32)
    requires
        0 <= j < bins.len(),
        bins[j].0 == bin,
        bins[j].1 < u32::MAX,
    ensures
        spec_bin_count(bins.update(j, (bin, (bins[j].1 + 1) as u32)), b) == spec_bin_count(bins, b)
            + if b == bin {
            1int
        } else {
            0int
        },
    decreases bins.len(),
{
    let updated = bins.update(j, (bin, (bins[j].1 + 1) as u32));
    if j == bins.len() - 1 {
        assert(updated.drop_last() =~= bins.drop_last());
        assert(updated.last() == (bin, (bins[j].1 + 1) as u32));
    } else {
        lemma_bin_count_update_one(bins.drop_last(), j, bin, b);
        assert(updated.drop_last() =~= bins.drop_last().update(
            j,
            (bin, (bins.drop_last()[j].1 + 1) as u32),
        ));
        assert(updated.last() == bins.last());
    }
}

/// Appending a fresh entry of count one adds one to that bin's total and
/// nothing to any other.
proof fn lemma_bin_count_push(bins: Seq<(u32, u32)>, bin: u32)
    ensures
        forall|b: u32|
            spec_bin_count(bins.push((bin, 1)), b) == spec_bin_count(bins, b) + if b == bin {
                1int
            } else {
                0int
            },
{
    assert forall|b: u32|
        spec_bin_count(bins.push((bin, 1)), b) == spec_bin_count(bins, b) + if b == bin {
            1int
        } else {
            0int
        } by {
        let pushed = bins.push((bin, 1));
        assert(pushed.drop_last() =~= bins);
        assert(pushed.last() == (bin, 1u32));
    };
}

} // verus!
