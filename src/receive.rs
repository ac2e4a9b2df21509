//! Per-peer receive state: loss and reorder accounting and the decision of
//! which payloads reach the sink.
use vstd::prelude::*;

use crate::recv_stats::RecvStats;
use crate::sync_controller::DefaultSyncController;
use crate::timesync::TimeSyncEstimator;
use crate::rate::{pruned, sat_add};

verus! {

/// Idle time after which a peer's state is dropped, in milliseconds.
pub const PEER_IDLE_TIMEOUT_MS: u64 = 60_000;

/// `x + 1`, wrapping to zero after the largest `u64`.
pub open spec fn wrap_inc(x: u64) -> u64 {
    if x == u64::MAX {
        0
    } else {
        (x + 1) as u64
    }
}

/// State kept for one source address, of type `A`.
pub struct PeerReceiver<A> {
    expected_sequence: u64,
    seen_any: bool,
    stats: RecvStats<A>,
}

impl<A: Copy> PeerReceiver<A> {
    /// The sequence number that would be in order next.
    pub closed spec fn spec_expected(&self) -> u64 {
        self.expected_sequence
    }

    /// Whether any data frame has been observed from this peer.
    pub closed spec fn spec_seen_any(&self) -> bool {
        self.seen_any
    }

    pub closed spec fn spec_stats(&self) -> RecvStats<A> {
        self.stats
    }

    pub closed spec fn wf(&self) -> bool {
        self.stats.wf()
    }

    /// A peer from which nothing has been received yet.
    pub fn new(window_ms: u64, sync: DefaultSyncController<A, TimeSyncEstimator>) -> (r: Self)
        requires
            sync.wf(),
        ensures
            r.spec_stats().spec_sync() == sync,
            r.wf(),
            r.spec_expected() == 0,
            !r.spec_seen_any(),
            r.spec_stats().spec_lost() == 0,
            r.spec_stats().spec_out_of_order() == 0,
            r.spec_stats().spec_total_packets() == 0,
            r.spec_stats().spec_total_bytes() == 0,
            r.spec_stats().spec_window() == window_ms,
    {
        PeerReceiver { expected_sequence: 0, seen_any: false, stats: RecvStats::new(window_ms, sync) }
    }

    /// Accounts a data frame with sequence number `seq` and says whether its
    /// payload goes to the sink.
    ///
    /// A frame at or after the expected sequence number is emitted and the
    /// expected number moves past it; the frames skipped over count as lost,
    /// except before the first frame from the peer. A frame before the expected
    /// number is late: it is counted and dropped.
    pub fn on_data(
        &mut self,
        seq: u64,
        bytes_received: usize,
        payload_len: usize,
        latency_ms: u64,
        now_ms: u64,
    ) -> (emit: bool)
        requires
            old(self).wf(),
        ensures
            final(self).wf(),
            final(self).spec_seen_any(),
            emit == (seq >= old(self).spec_expected()),
            emit ==> final(self).spec_expected() == wrap_inc(seq),
            !emit ==> final(self).spec_expected() == old(self).spec_expected(),
            final(self).spec_stats().spec_lost() == if emit && old(self).spec_seen_any() {
                sat_add(old(self).spec_stats().spec_lost(), (seq - old(self).spec_expected()) as nat)
            } else {
                old(self).spec_stats().spec_lost()
            },
            final(self).spec_stats().spec_out_of_order() == if emit {
                old(self).spec_stats().spec_out_of_order()
            } else {
                sat_add(old(self).spec_stats().spec_out_of_order(), 1)
            },
            final(self).spec_stats().spec_total_packets() == sat_add(
                old(self).spec_stats().spec_total_packets(),
                1,
            ),
            final(self).spec_stats().spec_total_bytes() == sat_add(
                old(self).spec_stats().spec_total_bytes(),
                bytes_received as nat,
            ),
            final(self).spec_stats().spec_window() == old(self).spec_stats().spec_window(),
            final(self).spec_stats().spec_sync() == old(self).spec_stats().spec_sync(),
            final(self).spec_stats().spec_byte_entries() == pruned(
                old(self).spec_stats().spec_byte_entries().push((now_ms, payload_len as u64)),
                now_ms,
                old(self).spec_stats().spec_window(),
            ),
            final(self).spec_stats().spec_latency_entries() == pruned(
                old(self).spec_stats().spec_latency_entries().push((now_ms, latency_ms)),
                now_ms,
                old(self).spec_stats().spec_window(),
            ),
    {
        self.stats.on_packet(bytes_received, payload_len, latency_ms, now_ms);
        let emit = seq >= self.expected_sequence;
        if emit {
            if seq > self.expected_sequence && self.seen_any {
                self.stats.mark_lost(seq - self.expected_sequence);
            }
            self.expected_sequence = seq.wrapping_add(1);
        } else {
            self.stats.mark_out_of_order();
        }
        self.seen_any = true;
        emit
    }

    /// The sequence number that would be in order next.
    pub fn expected_sequence(&self) -> (r: u64)
        ensures
            r == self.spec_expected(),
    {
        self.expected_sequence
    }

    pub fn stats(&self) -> (r: &RecvStats<A>)
        ensures
            *r == self.spec_stats(),
    {
        &self.stats
    }

    pub fn stats_mut(&mut self) -> (r: &mut RecvStats<A>)
        ensures
            *r == old(self).spec_stats(),
            final(self).spec_stats() == *final(r),
            final(self).wf() == final(r).wf(),
            final(self).spec_expected() == old(self).spec_expected(),
            final(self).spec_seen_any() == old(self).spec_seen_any(),
    {
        &mut self.stats
    }
}

/// Whether a peer last seen at `last_seen_ms` has been idle for at least
/// `timeout_ms` at `now_ms`; an instant after `now_ms` counts as no idle time.
pub fn is_idle(now_ms: u64, last_seen_ms: u64, timeout_ms: u64) -> (r: bool)
    ensures
        r == (now_ms >= last_seen_ms && now_ms - last_seen_ms >= timeout_ms),
{
    now_ms >= last_seen_ms && now_ms - last_seen_ms >= timeout_ms
}

} // verus!
