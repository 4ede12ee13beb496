//! Per-page network statistics: packet and byte counts, loss from
//! sequence gaps, and the RFC 3550 interarrival jitter estimator.

use vstd::prelude::*;

verus! {

/// The jitter accumulator is kept in sixteenths of a timestamp tick, so
/// the gain-1/16 update stays in integers. This caps it: far above any
/// reachable value, far below overflow.
pub const JITTER_ACCUM_CAP: u64 = 0x2000_0000_0000_0000;

/// Arrival instants are microseconds of a monotonic clock; this cap (about
/// 36 000 years of uptime) keeps the tick arithmetic in range.
pub const ARRIVAL_US_CAP: u64 = 0x1000_0000_0000_0000;

/// Network statistics of one page.
///
/// `update` is fed one packet at a time with its arrival instant in
/// microseconds of a monotonic clock.
#[derive(Debug, Clone, PartialEq, Eq, Structural)]
pub struct PageStats {
    /// Packets counted into this page.
    pub packets_received: u64,
    /// Payload bytes counted into this page.
    pub bytes_received: u64,
    /// Packets lost, judged from sequence gaps of 2..=999.
    pub packets_lost: u64,
    /// RFC 3550 jitter estimator state, in sixteenths of a timestamp tick.
    pub jitter_accum_x16: u64,
    /// The last sequence number seen.
    pub last_sequence: Option<u16>,
    /// The last RTP timestamp seen.
    pub last_timestamp: Option<u32>,
    /// When the last packet arrived.
    pub last_arrival_us: Option<u64>,
}

/// How many packets a sequence step counts as lost: a wrapped gap strictly
/// between 1 and 1000 loses `gap - 1`; anything else (a duplicate, a
/// reorder, a reset, or the first packet) loses none.
pub open spec fn spec_loss_increment(last: Option<u16>, seq: u16) -> int {
    match last {
        None => 0,
        Some(l) => {
            let gap = seq.wrapping_sub(l);
            if 1 < gap < 1000 {
                gap - 1
            } else {
                0
            }
        },
    }
}

/// One step of the jitter estimator at gain 1/16, over the accumulator in
/// sixteenths of a tick: `j + (16 d - j) / 16`, truncating toward zero.
pub open spec fn spec_jitter_step(j: int, d: int) -> int {
    if 16 * d >= j {
        j + (16 * d - j) / 16
    } else {
        j - (j - 16 * d) / 16
    }
}

/// The interarrival difference fed to the estimator: the arrival delta in
/// 8 kHz ticks (one tick per 125 microseconds) against the wrapped
/// timestamp delta.
pub open spec fn spec_jitter_d(
    last_ts: u32,
    ts: u32,
    last_arrival_us: u64,
    arrival_us: u64,
) -> int {
    let ticks = (arrival_us - last_arrival_us) / 125;
    let ts_diff = ts.wrapping_sub(last_ts) as int;
    if ticks >= ts_diff {
        ticks - ts_diff
    } else {
        ts_diff - ticks
    }
}

/// The statistics after one packet.
pub open spec fn spec_stats_update(
    s: PageStats,
    seq: u16,
    ts: u32,
    payload_len: int,
    arrival_us: u64,
) -> PageStats {
    let jitter = match (s.last_timestamp, s.last_arrival_us) {
        (Some(lt), Some(la)) => spec_jitter_step(
            s.jitter_accum_x16 as int,
            spec_jitter_d(lt, ts, la, arrival_us),
        ) as u64,
        _ => s.jitter_accum_x16,
    };
    PageStats {
        packets_received: (s.packets_received + 1) as u64,
        bytes_received: (s.bytes_received + payload_len) as u64,
        packets_lost: (s.packets_lost + spec_loss_increment(s.last_sequence, seq)) as u64,
        jitter_accum_x16: jitter,
        last_sequence: Some(seq),
        last_timestamp: Some(ts),
        last_arrival_us: Some(arrival_us),
    }
}

/// Fresh statistics: all zero, nothing seen yet.
pub open spec fn spec_stats_new() -> PageStats {
    PageStats {
        packets_received: 0,
        bytes_received: 0,
        packets_lost: 0,
        jitter_accum_x16: 0,
        last_sequence: None,
        last_timestamp: None,
        last_arrival_us: None,
    }
}

impl PageStats {
    /// Bounds every reachable statistics value satisfies; arrival instants
    /// and the accumulator stay far from overflow.
    pub open spec fn wf(&self) -> bool {
        &&& self.jitter_accum_x16 <= JITTER_ACCUM_CAP
        &&& match self.last_arrival_us {
            Some(a) => a < ARRIVAL_US_CAP,
            None => true,
        }
    }

    /// Fresh statistics: all zero, nothing seen yet.
    pub fn new() -> (r: Self)
        ensures
            r == spec_stats_new(),
            r.wf(),
    {
        PageStats {
            packets_received: 0,
            bytes_received: 0,
            packets_lost: 0,
            jitter_accum_x16: 0,
            last_sequence: None,
            last_timestamp: None,
            last_arrival_us: None,
        }
    }

    /// Counts one packet: bytes, loss from the sequence gap, and the
    /// jitter estimate from its arrival spacing.
    pub fn update(&mut self, sequence_number: u16, timestamp: u32, payload_len: usize, arrival_us: u64)
        requires
            old(self).wf(),
            old(self).packets_received < u64::MAX,
            old(self).bytes_received + payload_len < u64::MAX,
            old(self).packets_lost + 1000 < u64::MAX,
            arrival_us < ARRIVAL_US_CAP,
            match old(self).last_arrival_us {
                Some(a) => arrival_us >= a,
                None => true,
            },
        ensures
            *final(self) == spec_stats_update(
                *old(self),
                sequence_number,
                timestamp,
                payload_len as int,
                arrival_us,
            ),
            final(self).wf(),
    {
        self.packets_received = self.packets_received + 1;
        self.bytes_received = self.bytes_received + payload_len as u64;

        match self.last_sequence {
            Some(last_seq) => {
                let gap = sequence_number.wrapping_sub(last_seq);
                if gap > 1 && gap < 1000 {
                    self.packets_lost = self.packets_lost + (gap - 1) as u64;
                }
            },
            None => {},
        }

        match (self.last_timestamp, self.last_arrival_us) {
            (Some(last_ts), Some(last_arrival)) => {
                let ticks: u64 = (arrival_us - last_arrival) / 125;
                let ts_diff: u64 = timestamp.wrapping_sub(last_ts) as u64;
                let d: u64 = if ticks >= ts_diff {
                    ticks - ts_diff
                } else {
                    ts_diff - ticks
                };
                let j = self.jitter_accum_x16;
                proof {
                    lemma_jitter_step_bounded(j as int, d as int);
                }
                if 16 * d >= j {
                    self.jitter_accum_x16 = j + (16 * d - j) / 16;
                } else {
                    self.jitter_accum_x16 = j - (j - 16 * d) / 16;
                }
            },
            _ => {},
        }

        self.last_sequence = Some(sequence_number);
        self.last_timestamp = Some(timestamp);
        self.last_arrival_us = Some(arrival_us);
    }

    /// The jitter estimate in whole milliseconds: the accumulator holds
    /// sixteenths of an 8 kHz tick, and 8 ticks make a millisecond.
    pub fn jitter_ms(&self) -> (r: u64)
        ensures
            r == self.jitter_accum_x16 / 128,
    {
        self.jitter_accum_x16 / 128
    }

    /// The denominator of the loss ratio: packets that arrived plus
    /// packets judged lost.
    pub fn expected_packets(&self) -> (r: u64)
        requires
            self.packets_received + self.packets_lost <= u64::MAX,
        ensures
            r == self.packets_received + self.packets_lost,
    {
        self.packets_received + self.packets_lost
    }
}

/// One estimator step stays within the accumulator cap whenever the
/// difference is in the reachable range.
proof fn lemma_jitter_step_bounded(j: int, d: int)
    requires
        0 <= j <= 0x2000_0000_0000_0000,
        0 <= d < 0x100_0000_0000_0000,
    ensures
        0 <= spec_jitter_step(j, d) <= 0x2000_0000_0000_0000,
        16 * d >= j ==> j <= spec_jitter_step(j, d) <= 16 * d,
        16 * d < j ==> 16 * d <= spec_jitter_step(j, d) <= j,
{
    if 16 * d >= j {
        let delta = 16 * d - j;
        vstd::arithmetic::div_mod::lemma_div_is_ordered(0, delta, 16);
        assert(delta / 16 <= delta) by {
            vstd::arithmetic::div_mod::lemma_div_is_ordered_by_denominator(delta, 1, 16);
            vstd::arithmetic::div_mod::lemma_div_by_multiple(delta, 1);
        };
    } else {
        let delta = j - 16 * d;
        vstd::arithmetic::div_mod::lemma_div_is_ordered(0, delta, 16);
        assert(delta / 16 <= delta) by {
            vstd::arithmetic::div_mod::lemma_div_is_ordered_by_denominator(delta, 1, 16);
            vstd::arithmetic::div_mod::lemma_div_by_multiple(delta, 1);
        };
    }
}


/// The statistics after a whole ideal stream: each packet advances the
/// sequence number by one, the timestamp by one frame of samples, and the
/// arrival clock by a fixed spacing.
pub open spec fn spec_feed_ideal(
    s: PageStats,
    seq: u16,
    ts: u32,
    arrival_us: u64,
    frame: u32,
    spacing_us: u64,
    payload_len: int,
    n: nat,
) -> PageStats
    decreases n,
{
    if n == 0 {
        s
    } else {
        spec_feed_ideal(
            spec_stats_update(s, seq, ts, payload_len, arrival_us),
            seq.wrapping_add(1),
            ts.wrapping_add(frame),
            (arrival_us + spacing_us) as u64,
            frame,
            spacing_us,
            payload_len,
            (n - 1) as nat,
        )
    }
}

/// A monotonic stream counts every packet and loses none: after `n`
/// ideally spaced packets from a fresh page, `packets_received` is `n`,
/// `packets_lost` is zero, and when the arrival spacing matches the
/// timestamp step on the 8 kHz clock the jitter estimate stays zero.
pub proof fn lemma_monotonic_stream_counts(
    seq: u16,
    ts: u32,
    arrival_us: u64,
    frame: u32,
    spacing_us: u64,
    payload_len: int,
    n: nat,
)
    requires
        n <= 0xffff_ffff,
        arrival_us + n * spacing_us <= u64::MAX,
        spacing_us / 125 == frame,
    ensures
        ({
            let r = spec_feed_ideal(
                spec_stats_new(),
                seq,
                ts,
                arrival_us,
                frame,
                spacing_us,
                payload_len,
                n,
            );
            &&& r.packets_received == n
            &&& r.packets_lost == 0
            &&& r.jitter_accum_x16 == 0
        }),
{
    lemma_feed_ideal_step(spec_stats_new(), seq, ts, arrival_us, frame, spacing_us, payload_len, n);
}

/// The induction behind `lemma_monotonic_stream_counts`: feeding one more
/// ideal packet keeps the loss count and the zero jitter, and counts the
/// packet.
proof fn lemma_feed_ideal_step(
    s: PageStats,
    seq: u16,
    ts: u32,
    arrival_us: u64,
    frame: u32,
    spacing_us: u64,
    payload_len: int,
    n: nat,
)
    requires
        s.packets_received + n <= u64::MAX,
        s.jitter_accum_x16 == 0,
        arrival_us + n * spacing_us <= u64::MAX,
        spacing_us / 125 == frame,
        s.last_sequence matches Some(q) ==> seq == q.wrapping_add(1),
        s.last_timestamp matches Some(t) ==> ts == t.wrapping_add(frame),
        s.last_arrival_us matches Some(a) ==> arrival_us == a + spacing_us,
    ensures
        ({
            let r = spec_feed_ideal(s, seq, ts, arrival_us, frame, spacing_us, payload_len, n);
            &&& r.packets_received == s.packets_received + n
            &&& r.packets_lost == s.packets_lost
            &&& r.jitter_accum_x16 == 0
        }),
    decreases n,
{
    if n > 0 {
        let s1 = spec_stats_update(s, seq, ts, payload_len, arrival_us);
        assert(s1.packets_lost == s.packets_lost) by {
            match s.last_sequence {
                Some(q) => {
                    assert(q.wrapping_add(1).wrapping_sub(q) == 1) by (bit_vector);
                },
                None => {},
            }
        };
        assert(s1.jitter_accum_x16 == 0) by {
            match (s.last_timestamp, s.last_arrival_us) {
                (Some(t), Some(a)) => {
                    assert(ts.wrapping_sub(t) == frame) by {
                        assert(forall|x: u32, f: u32|
                            #[trigger] (x.wrapping_add(f).wrapping_sub(x)) == f) by (bit_vector);
                    };
                    assert((arrival_us - a) / 125 == frame);
                    assert(spec_jitter_d(t, ts, a, arrival_us) == 0);
                },
                _ => {},
            }
        };
        assert((n - 1) * spacing_us + spacing_us == n * spacing_us) by (nonlinear_arith);
        assert(n * spacing_us >= 0) by (nonlinear_arith);
        assert((n - 1) * spacing_us >= 0) by (nonlinear_arith)
            requires
                n >= 1 && spacing_us >= 0,
        ;
        lemma_feed_ideal_step(
            s1,
            seq.wrapping_add(1),
            ts.wrapping_add(frame),
            (arrival_us + spacing_us) as u64,
            frame,
            spacing_us,
            payload_len,
            (n - 1) as nat,
        );
    }
}

/// A sequence gap of `g` with `1 < g < 1000` attributes exactly `g - 1`
/// losses; any other gap attributes none.
pub proof fn lemma_loss_accounting(last: u16, seq: u16)
    ensures
        1 < seq.wrapping_sub(last) < 1000 ==> spec_loss_increment(Some(last), seq)
            == seq.wrapping_sub(last) - 1,
        !(1 < seq.wrapping_sub(last) < 1000) ==> spec_loss_increment(Some(last), seq) == 0,
{
}

/// A packet whose sequence number is the successor of the last one counts
/// no loss and one more received packet.
pub proof fn lemma_monotonic_step_no_loss(
    s: PageStats,
    seq: u16,
    ts: u32,
    payload_len: int,
    arrival_us: u64,
)
    requires
        s.last_sequence matches Some(l) && seq == l.wrapping_add(1),
        s.packets_received < u64::MAX,
        0 <= payload_len,
        s.bytes_received + payload_len < u64::MAX,
        s.packets_lost + 1000 < u64::MAX,
    ensures
        spec_stats_update(s, seq, ts, payload_len, arrival_us).packets_lost == s.packets_lost,
        spec_stats_update(s, seq, ts, payload_len, arrival_us).packets_received
            == s.packets_received + 1,
{
    let l = s.last_sequence.unwrap();
    assert(seq.wrapping_sub(l) == 1) by {
        assert(l.wrapping_add(1).wrapping_sub(l) == 1) by (bit_vector);
    };
}

/// With ideal arrival spacing (the arrival delta in ticks equals the
/// wrapped timestamp delta) the jitter estimate never grows, so a stream
/// paced exactly at its timestamps converges toward zero jitter.
pub proof fn lemma_ideal_spacing_jitter(
    s: PageStats,
    seq: u16,
    ts: u32,
    payload_len: int,
    arrival_us: u64,
)
    requires
        s.wf(),
        s.last_timestamp matches Some(lt),
        s.last_arrival_us matches Some(la) && arrival_us >= la && (arrival_us - la) / 125
            == ts.wrapping_sub(s.last_timestamp.unwrap()) as int,
        0 <= payload_len,
        s.packets_received < u64::MAX,
        s.bytes_received + payload_len < u64::MAX,
        s.packets_lost + 1000 < u64::MAX,
    ensures
        spec_stats_update(s, seq, ts, payload_len, arrival_us).jitter_accum_x16
            <= s.jitter_accum_x16,
        s.jitter_accum_x16 == 0 ==> spec_stats_update(
            s,
            seq,
            ts,
            payload_len,
            arrival_us,
        ).jitter_accum_x16 == 0,
{
    let lt = s.last_timestamp.unwrap();
    let la = s.last_arrival_us.unwrap();
    assert(spec_jitter_d(lt, ts, la, arrival_us) == 0);
    lemma_jitter_step_bounded(s.jitter_accum_x16 as int, 0);
}

} // verus!
