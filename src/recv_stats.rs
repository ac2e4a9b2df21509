//! Per-peer receive counters and rolling receive telemetry.
use vstd::prelude::*;

use crate::packet_sync::SyncMessage;
use crate::rate::{pruned, sat_add, spec_rate, sum_of, Ratio, RollingMean, RollingRate};
use crate::sync_controller::{spec_latency_ms, DefaultSyncController};
use crate::timesync::{is_update, TimeSyncEstimator};

verus! {

/// Counters and rolling windows of the data frames received from one peer,
/// with the time-sync control of that peer, whose address is of type `A`.
/// Instants are milliseconds on a monotonic clock; counters saturate.
pub struct RecvStats<A> {
    total_bytes_received: u64,
    total_packets_received: u64,
    lost_packets: u64,
    out_of_order_packets: u64,
    byte_rate: RollingRate,
    latency_mean: RollingMean,
    sync: DefaultSyncController<A, TimeSyncEstimator>,
}

impl<A: Copy> RecvStats<A> {
    pub closed spec fn spec_total_bytes(&self) -> u64 {
        self.total_bytes_received
    }

    pub closed spec fn spec_total_packets(&self) -> u64 {
        self.total_packets_received
    }

    pub closed spec fn spec_lost(&self) -> u64 {
        self.lost_packets
    }

    pub closed spec fn spec_out_of_order(&self) -> u64 {
        self.out_of_order_packets
    }

    /// `(instant, payload bytes)` of the frames within the window.
    pub closed spec fn spec_byte_entries(&self) -> Seq<(u64, u64)> {
        self.byte_rate.entries()
    }

    /// `(instant, latency in ms)` of the frames within the window.
    pub closed spec fn spec_latency_entries(&self) -> Seq<(u64, u64)> {
        self.latency_mean.entries()
    }

    pub closed spec fn spec_window(&self) -> u64 {
        self.byte_rate.window()
    }

    pub closed spec fn spec_sync(&self) -> DefaultSyncController<A, TimeSyncEstimator> {
        self.sync
    }

    pub closed spec fn wf(&self) -> bool {
        &&& self.byte_rate.wf()
        &&& self.latency_mean.wf()
        &&& self.sync.wf()
        &&& self.latency_mean.window() == self.byte_rate.window()
    }

    /// All counters zero, rolling windows of `window_ms` empty.
    pub fn new(window_ms: u64, sync: DefaultSyncController<A, TimeSyncEstimator>) -> (r: Self)
        requires
            sync.wf(),
        ensures
            r.spec_sync() == sync,
            r.wf(),
            r.spec_total_bytes() == 0,
            r.spec_total_packets() == 0,
            r.spec_lost() == 0,
            r.spec_out_of_order() == 0,
            r.spec_byte_entries() == Seq::<(u64, u64)>::empty(),
            r.spec_latency_entries() == Seq::<(u64, u64)>::empty(),
            r.spec_window() == window_ms,
    {
        RecvStats {
            total_bytes_received: 0,
            total_packets_received: 0,
            lost_packets: 0,
            out_of_order_packets: 0,
            byte_rate: RollingRate::new(window_ms),
            latency_mean: RollingMean::new(window_ms),
            sync,
        }
    }

    /// Accounts one received data frame of `bytes_received` datagram bytes,
    /// carrying `payload_len` payload bytes, with the given latency.
    pub fn on_packet(&mut self, bytes_received: usize, payload_len: usize, latency_ms: u64, now_ms: u64)
        requires
            old(self).wf(),
        ensures
            final(self).wf(),
            final(self).spec_total_bytes() == sat_add(old(self).spec_total_bytes(), bytes_received as nat),
            final(self).spec_total_packets() == sat_add(old(self).spec_total_packets(), 1),
            final(self).spec_lost() == old(self).spec_lost(),
            final(self).spec_out_of_order() == old(self).spec_out_of_order(),
            final(self).spec_window() == old(self).spec_window(),
            final(self).spec_sync() == old(self).spec_sync(),
            final(self).spec_byte_entries() == pruned(
                old(self).spec_byte_entries().push((now_ms, payload_len as u64)),
                now_ms,
                old(self).spec_window(),
            ),
            final(self).spec_latency_entries() == pruned(
                old(self).spec_latency_entries().push((now_ms, latency_ms)),
                now_ms,
                old(self).spec_window(),
            ),
    {
        self.total_bytes_received = self.total_bytes_received.saturating_add(bytes_received as u64);
        self.total_packets_received = self.total_packets_received.saturating_add(1);
        self.byte_rate.record(now_ms, payload_len as u64);
        self.latency_mean.record(now_ms, latency_ms);
    }

    /// Adds `lost_count` to the lost-packet counter.
    pub fn mark_lost(&mut self, lost_count: u64)
        ensures
            final(self).spec_lost() == sat_add(old(self).spec_lost(), lost_count as nat),
            final(self).spec_out_of_order() == old(self).spec_out_of_order(),
            final(self).spec_total_bytes() == old(self).spec_total_bytes(),
            final(self).spec_total_packets() == old(self).spec_total_packets(),
            final(self).spec_byte_entries() == old(self).spec_byte_entries(),
            final(self).spec_latency_entries() == old(self).spec_latency_entries(),
            final(self).spec_window() == old(self).spec_window(),
            final(self).spec_sync() == old(self).spec_sync(),
            final(self).wf() == old(self).wf(),
    {
        self.lost_packets = self.lost_packets.saturating_add(lost_count);
    }

    /// Counts one late frame.
    pub fn mark_out_of_order(&mut self)
        ensures
            final(self).spec_out_of_order() == sat_add(old(self).spec_out_of_order(), 1),
            final(self).spec_lost() == old(self).spec_lost(),
            final(self).spec_total_bytes() == old(self).spec_total_bytes(),
            final(self).spec_total_packets() == old(self).spec_total_packets(),
            final(self).spec_byte_entries() == old(self).spec_byte_entries(),
            final(self).spec_latency_entries() == old(self).spec_latency_entries(),
            final(self).spec_window() == old(self).spec_window(),
            final(self).spec_sync() == old(self).spec_sync(),
            final(self).wf() == old(self).wf(),
    {
        self.out_of_order_packets = self.out_of_order_packets.saturating_add(1);
    }

    pub fn total_bytes_received(&self) -> (r: u64)
        ensures
            r == self.spec_total_bytes(),
    {
        self.total_bytes_received
    }

    pub fn total_packets_received(&self) -> (r: u64)
        ensures
            r == self.spec_total_packets(),
    {
        self.total_packets_received
    }

    pub fn lost_packets(&self) -> (r: u64)
        ensures
            r == self.spec_lost(),
    {
        self.lost_packets
    }

    pub fn out_of_order_packets(&self) -> (r: u64)
        ensures
            r == self.spec_out_of_order(),
    {
        self.out_of_order_packets
    }

    /// Evicts, then returns the payload bytes per second over the window.
    pub fn bytes_per_sec(&mut self, now_ms: u64) -> (r: Ratio)
        requires
            old(self).wf(),
        ensures
            final(self).wf(),
            final(self).spec_byte_entries() == pruned(old(self).spec_byte_entries(), now_ms, old(self).spec_window()),
            r == spec_rate(final(self).spec_byte_entries(), old(self).spec_window()),
            final(self).spec_latency_entries() == old(self).spec_latency_entries(),
            final(self).spec_window() == old(self).spec_window(),
            final(self).spec_sync() == old(self).spec_sync(),
            final(self).spec_total_bytes() == old(self).spec_total_bytes(),
            final(self).spec_total_packets() == old(self).spec_total_packets(),
            final(self).spec_lost() == old(self).spec_lost(),
            final(self).spec_out_of_order() == old(self).spec_out_of_order(),
    {
        self.byte_rate.rate_per_sec(now_ms)
    }

    /// Evicts, then returns the mean latency in milliseconds over the window;
    /// zero when no frame is left in it.
    pub fn average_latency_ms(&mut self, now_ms: u64) -> (r: Ratio)
        requires
            old(self).wf(),
        ensures
            final(self).wf(),
            final(self).spec_latency_entries() == pruned(old(self).spec_latency_entries(), now_ms, old(self).spec_window()),
            final(self).spec_latency_entries().len() == 0 ==> r == (Ratio { num: 0, den: 1 }),
            final(self).spec_latency_entries().len() > 0 ==> r == (Ratio {
                num: sum_of(final(self).spec_latency_entries()) as u128,
                den: final(self).spec_latency_entries().len() as u64,
            }),
            final(self).spec_byte_entries() == old(self).spec_byte_entries(),
            final(self).spec_window() == old(self).spec_window(),
            final(self).spec_sync() == old(self).spec_sync(),
            final(self).spec_total_bytes() == old(self).spec_total_bytes(),
            final(self).spec_total_packets() == old(self).spec_total_packets(),
            final(self).spec_lost() == old(self).spec_lost(),
            final(self).spec_out_of_order() == old(self).spec_out_of_order(),
    {
        self.latency_mean.average(now_ms)
    }

    /// Lost frames as a share of the frames expected so far, `lost / expected`;
    /// zero before any frame is expected.
    pub fn loss_ratio(&self, expected_sequence: u64) -> (r: Ratio)
        ensures
            expected_sequence == 0 ==> r == (Ratio { num: 0, den: 1 }),
            expected_sequence > 0 ==> r == (Ratio { num: self.spec_lost() as u128, den: expected_sequence }),
    {
        if expected_sequence == 0 {
            Ratio { num: 0, den: 1 }
        } else {
            Ratio { num: self.lost_packets as u128, den: expected_sequence }
        }
    }
}


impl<A: Copy> RecvStats<A> {
    /// Remembers `addr` as the peer to ping.
    pub fn register_sender(&mut self, addr: A)
        requires
            old(self).wf(),
        ensures
            final(self).wf(),
            final(self).spec_sync().spec_last_sender() == Some(addr),
            final(self).spec_sync().spec_estimator() == old(self).spec_sync().spec_estimator(),
            final(self).spec_sync().spec_last_ping() == old(self).spec_sync().spec_last_ping(),
            final(self).spec_sync().spec_ping_interval() == old(self).spec_sync().spec_ping_interval(),
            final(self).spec_lost() == old(self).spec_lost(),
            final(self).spec_out_of_order() == old(self).spec_out_of_order(),
            final(self).spec_total_bytes() == old(self).spec_total_bytes(),
            final(self).spec_total_packets() == old(self).spec_total_packets(),
            final(self).spec_byte_entries() == old(self).spec_byte_entries(),
            final(self).spec_latency_entries() == old(self).spec_latency_entries(),
            final(self).spec_window() == old(self).spec_window(),
    {
        self.sync.register_sender(addr);
    }

    /// Feeds a pong received at `t3_ms` to the time-sync estimator.
    pub fn on_pong(&mut self, t0_ms: u64, t1_ms: u64, t2_ms: u64, t3_ms: u64)
        requires
            old(self).wf(),
        ensures
            final(self).wf(),
            is_update(
                old(self).spec_sync().spec_estimator(),
                final(self).spec_sync().spec_estimator(),
                t0_ms,
                t1_ms,
                t2_ms,
                t3_ms,
            ),
            final(self).spec_sync().spec_last_sender() == old(self).spec_sync().spec_last_sender(),
            final(self).spec_sync().spec_last_ping() == old(self).spec_sync().spec_last_ping(),
            final(self).spec_sync().spec_ping_interval() == old(self).spec_sync().spec_ping_interval(),
            final(self).spec_lost() == old(self).spec_lost(),
            final(self).spec_out_of_order() == old(self).spec_out_of_order(),
            final(self).spec_total_bytes() == old(self).spec_total_bytes(),
            final(self).spec_total_packets() == old(self).spec_total_packets(),
            final(self).spec_byte_entries() == old(self).spec_byte_entries(),
            final(self).spec_latency_entries() == old(self).spec_latency_entries(),
            final(self).spec_window() == old(self).spec_window(),
    {
        self.sync.on_pong(t0_ms, t1_ms, t2_ms, t3_ms);
    }

    /// The latency of a frame stamped `sent_ts_ms`, seen at `now_ms`.
    pub fn compute_latency_ms(&self, sent_ts_ms: u64, now_ms: u64) -> (r: u64)
        requires
            self.wf(),
        ensures
            r == spec_latency_ms(
                now_ms,
                self.spec_sync().spec_estimator().spec_state().offset_us as int,
                sent_ts_ms,
            ),
    {
        self.sync.compute_latency_ms(sent_ts_ms, now_ms)
    }

    /// The ping that is due at `now_ms`, with its destination.
    pub fn maybe_ping(&mut self, now_ms: u64) -> (r: Option<(A, SyncMessage)>)
        requires
            old(self).wf(),
        ensures
            final(self).wf(),
            ({
                let c = old(self).spec_sync();
                let due = c.spec_last_sender() is Some && (now_ms < c.spec_last_ping() ==> 0
                    >= c.spec_ping_interval()) && (now_ms >= c.spec_last_ping() ==> now_ms
                    - c.spec_last_ping() >= c.spec_ping_interval());
                &&& due ==> r == Some((c.spec_last_sender()->0, SyncMessage::Ping { t0_ms: now_ms }))
                    && final(self).spec_sync().spec_last_ping() == now_ms
                &&& !due ==> r is None && final(self).spec_sync().spec_last_ping()
                    == c.spec_last_ping()
            }),
            final(self).spec_sync().spec_last_sender() == old(self).spec_sync().spec_last_sender(),
            final(self).spec_sync().spec_estimator() == old(self).spec_sync().spec_estimator(),
            final(self).spec_sync().spec_ping_interval() == old(self).spec_sync().spec_ping_interval(),
            final(self).spec_lost() == old(self).spec_lost(),
            final(self).spec_out_of_order() == old(self).spec_out_of_order(),
            final(self).spec_total_bytes() == old(self).spec_total_bytes(),
            final(self).spec_total_packets() == old(self).spec_total_packets(),
            final(self).spec_byte_entries() == old(self).spec_byte_entries(),
            final(self).spec_latency_entries() == old(self).spec_latency_entries(),
            final(self).spec_window() == old(self).spec_window(),
    {
        self.sync.maybe_send_ping(now_ms)
    }

    /// The estimated offset of the peer's clock, in microseconds.
    pub fn offset_us(&self) -> (r: i128)
        requires
            self.wf(),
        ensures
            r == self.spec_sync().spec_estimator().spec_state().offset_us,
    {
        self.sync.offset_us()
    }

    /// The estimated drift, in thousandths of a ppm.
    pub fn drift_milli_ppm(&self) -> (r: i128)
        requires
            self.wf(),
        ensures
            r == self.spec_sync().spec_estimator().spec_state().drift_milli_ppm,
    {
        self.sync.drift_milli_ppm()
    }
}

} // verus!
