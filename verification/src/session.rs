//! The RTP-side session reassembler core: one endpoint slot, page
//! start/end detection, idle timeout, and per-page counters.
//!
//! Instants come in as milliseconds (for page bookkeeping) and
//! microseconds (for jitter) of a monotonic clock the caller reads.

use vstd::prelude::*;
use crate::stats::{PageStats, spec_stats_new, spec_stats_update};

verus! {

/// The state of one monitored endpoint slot on the RTP path.
#[derive(Debug, Clone, PartialEq, Eq, Structural)]
pub struct RtpEndpointSession {
    /// The stream that owns the slot, once a page is active.
    pub ssrc: Option<u32>,
    /// Whether a page is in progress.
    pub page_active: bool,
    /// Pages opened on this endpoint so far.
    pub page_count: u32,
    /// Network statistics of the current page.
    pub stats: PageStats,
    /// When the current page started.
    pub page_start_ms: Option<u64>,
    /// When the last packet arrived.
    pub last_packet_ms: Option<u64>,
}

/// What one finished page reports: its duration and its totals.
#[derive(Debug, Clone, PartialEq, Eq, Structural)]
pub struct PageTotals {
    /// First packet to last packet, in milliseconds.
    pub duration_ms: u64,
    /// Packets counted into the page.
    pub packets_received: u64,
    /// Payload bytes counted into the page.
    pub bytes_received: u64,
    /// Packets judged lost.
    pub packets_lost: u64,
    /// Final jitter estimator state, in sixteenths of a tick.
    pub jitter_accum_x16: u64,
}

/// Whether a packet of this stream opens a new page: the slot is empty or
/// holds a different stream.
pub open spec fn spec_starts_new_page(s: RtpEndpointSession, ssrc: u32) -> bool {
    s.ssrc is None || s.ssrc != Some(ssrc)
}

/// Whether the supervisor must finalise the page: it is active and has
/// been idle at least the timeout.
pub open spec fn spec_should_end(s: RtpEndpointSession, now_ms: u64, idle_timeout_ms: u64) -> bool {
    &&& s.page_active
    &&& match s.last_packet_ms {
        Some(l) => now_ms >= l + idle_timeout_ms,
        None => false,
    }
}

/// The slot after a page is finalised: inactive and empty, with fresh
/// statistics; the arrival clock of the slot is kept.
pub open spec fn spec_end_reset(s: RtpEndpointSession) -> RtpEndpointSession {
    RtpEndpointSession {
        ssrc: None,
        page_active: false,
        page_count: s.page_count,
        stats: spec_stats_new(),
        page_start_ms: None,
        last_packet_ms: s.last_packet_ms,
    }
}

/// The totals a page reports when it ends: duration from first to last
/// packet, and the counters as they stand.
pub open spec fn spec_page_totals(s: RtpEndpointSession) -> PageTotals {
    PageTotals {
        duration_ms: match (s.page_start_ms, s.last_packet_ms) {
            (Some(start), Some(last)) => (last - start) as u64,
            _ => 0,
        },
        packets_received: s.stats.packets_received,
        bytes_received: s.stats.bytes_received,
        packets_lost: s.stats.packets_lost,
        jitter_accum_x16: s.stats.jitter_accum_x16,
    }
}

impl RtpEndpointSession {
    /// Bounds every reachable slot satisfies: statistics in range, clocks
    /// that do not run backwards, and a populated slot while a page runs.
    pub open spec fn wf(&self) -> bool {
        &&& self.stats.wf()
        &&& match (self.page_start_ms, self.last_packet_ms) {
            (Some(start), Some(last)) => start <= last,
            _ => true,
        }
        &&& self.page_active ==> self.ssrc is Some && self.page_start_ms is Some
            && self.last_packet_ms is Some
        &&& !self.page_active ==> self.ssrc is None && self.page_start_ms is None
    }

    /// An empty slot.
    pub fn new() -> (r: Self)
        ensures
            r.ssrc is None,
            !r.page_active,
            r.page_count == 0,
            r.stats == spec_stats_new(),
            r.page_start_ms is None,
            r.last_packet_ms is None,
            r.wf(),
    {
        RtpEndpointSession {
            ssrc: None,
            page_active: false,
            page_count: 0,
            stats: PageStats::new(),
            page_start_ms: None,
            last_packet_ms: None,
        }
    }

    /// Whether the slot takes a packet of this stream: the stream already
    /// owns it, or no page is active. A different stream is rejected while
    /// a page runs.
    pub fn accepts(&self, ssrc: u32) -> (r: bool)
        ensures
            r == (self.ssrc == Some(ssrc) || !self.page_active),
    {
        (match self.ssrc {
            Some(s) => s == ssrc,
            None => false,
        }) || !self.page_active
    }

    /// Feeds one packet into the slot. A packet of a new stream opens a
    /// new page: the page counter advances and the statistics restart at
    /// zero before this packet is counted.
    pub fn on_packet(
        &mut self,
        ssrc: u32,
        sequence_number: u16,
        timestamp: u32,
        payload_len: usize,
        now_ms: u64,
        now_us: u64,
    ) -> (started: bool)
        requires
            old(self).wf(),
            old(self).page_count < u32::MAX,
            old(self).stats.packets_received < u64::MAX,
            old(self).stats.bytes_received + payload_len < u64::MAX,
            old(self).stats.packets_lost + 1000 < u64::MAX,
            now_us < crate::stats::ARRIVAL_US_CAP,
            match old(self).stats.last_arrival_us {
                Some(a) => now_us >= a,
                None => true,
            },
            match old(self).last_packet_ms {
                Some(l) => now_ms >= l,
                None => true,
            },
        ensures
            final(self).wf(),
            started == spec_starts_new_page(*old(self), ssrc),
            final(self).ssrc == Some(ssrc),
            final(self).page_active,
            final(self).last_packet_ms == Some(now_ms),
            started ==> final(self).page_count == old(self).page_count + 1 && final(self).stats
                == spec_stats_update(
                spec_stats_new(),
                sequence_number,
                timestamp,
                payload_len as int,
                now_us,
            ) && final(self).page_start_ms == Some(now_ms),
            !started ==> final(self).page_count == old(self).page_count && final(self).stats
                == spec_stats_update(
                old(self).stats,
                sequence_number,
                timestamp,
                payload_len as int,
                now_us,
            ) && final(self).page_start_ms == old(self).page_start_ms,
    {
        let is_new = match self.ssrc {
            Some(s) => s != ssrc,
            None => true,
        };
        if is_new {
            self.ssrc = Some(ssrc);
            self.page_count = self.page_count + 1;
            self.page_start_ms = Some(now_ms);
            self.page_active = true;
            self.stats = PageStats::new();
        }
        self.stats.update(sequence_number, timestamp, payload_len, now_us);
        self.page_active = true;
        self.last_packet_ms = Some(now_ms);
        is_new
    }

    /// Whether the supervisor must finalise the page now.
    pub fn should_end(&self, now_ms: u64, idle_timeout_ms: u64) -> (r: bool)
        requires
            match self.last_packet_ms {
                Some(l) => now_ms >= l,
                None => true,
            },
        ensures
            r == spec_should_end(*self, now_ms, idle_timeout_ms),
    {
        if !self.page_active {
            return false;
        }
        match self.last_packet_ms {
            Some(l) => now_ms - l >= idle_timeout_ms,
            None => false,
        }
    }

    /// Finalises the page: reports its totals and empties the slot. The
    /// page counter and the arrival clock are kept.
    pub fn end_page(&mut self) -> (r: PageTotals)
        requires
            old(self).wf(),
        ensures
            final(self).wf(),
            r == spec_page_totals(*old(self)),
            *final(self) == spec_end_reset(*old(self)),
    {
        let duration_ms: u64 = match (self.page_start_ms, self.last_packet_ms) {
            (Some(start), Some(last)) => last - start,
            _ => 0,
        };
        let totals = PageTotals {
            duration_ms,
            packets_received: self.stats.packets_received,
            bytes_received: self.stats.bytes_received,
            packets_lost: self.stats.packets_lost,
            jitter_accum_x16: self.stats.jitter_accum_x16,
        };
        self.ssrc = None;
        self.page_active = false;
        self.stats = PageStats::new();
        self.page_start_ms = None;
        totals
    }
}

/// Idle finalisation: once the gap since a page's last packet reaches the
/// idle timeout, the supervisor must close it, and the very next packet,
/// whatever its stream, opens a new page on the emptied slot.
pub proof fn lemma_idle_finalisation(
    s: RtpEndpointSession,
    t1: u64,
    t2: u64,
    idle_timeout_ms: u64,
    ssrc: u32,
)
    requires
        s.page_active,
        s.last_packet_ms == Some(t1),
        t2 >= t1 + idle_timeout_ms,
    ensures
        spec_should_end(s, t2, idle_timeout_ms),
        spec_starts_new_page(spec_end_reset(s), ssrc),
{
}

} // verus!
