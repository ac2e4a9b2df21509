//! Per-peer time-sync control: remembers the last data source, decides when
//! to ping it, feeds pongs to the estimator and corrects latencies by the
//! estimated offset. The caller supplies the clock and sends the pings.
use vstd::prelude::*;

use crate::packet_sync::SyncMessage;
use crate::timesync::{
    div_toward_zero, lemma_trunc_div_shrinks, trunc_div, TimeSync, TimeSyncEstimator, TimeSyncState,
    FACTOR_SCALE,
};

verus! {

/// Default time between two pings, in milliseconds.
pub const DEFAULT_PING_INTERVAL_MS: u64 = 1000;

/// The one-way latency in milliseconds of a frame stamped `sent_ts_ms` by the
/// peer and seen at `now_ms`: `max(now - offset, 0) - sent`, with the offset
/// in whole milliseconds (rounded toward zero), the first term capped at
/// `u64::MAX` and the difference saturating at zero.
pub open spec fn spec_latency_ms(now_ms: u64, offset_us: int, sent_ts_ms: u64) -> u64 {
    let adj = now_ms - trunc_div(offset_us, 1000);
    let adj = if adj < 0 {
        0
    } else if adj > u64::MAX {
        u64::MAX as int
    } else {
        adj
    };
    if adj >= sent_ts_ms {
        (adj - sent_ts_ms) as u64
    } else {
        0
    }
}

/// Time-sync control for one peer, whose address is of type `A`, around an
/// estimator of type `T`.
pub struct DefaultSyncController<A, T> {
    ts: T,
    last_sender: Option<A>,
    last_ping_ms: u64,
    ping_interval_ms: u64,
}

impl<A: Copy, T: TimeSync> DefaultSyncController<A, T> {
    pub closed spec fn spec_estimator(&self) -> T {
        self.ts
    }

    pub closed spec fn spec_last_sender(&self) -> Option<A> {
        self.last_sender
    }

    pub closed spec fn spec_last_ping(&self) -> u64 {
        self.last_ping_ms
    }

    pub closed spec fn spec_ping_interval(&self) -> u64 {
        self.ping_interval_ms
    }

    pub closed spec fn wf(&self) -> bool {
        self.ts.inv()
    }

    /// A controller around `ts`, pinging at most every `ping_interval_ms`.
    pub fn new(ts: T, ping_interval_ms: u64) -> (r: Self)
        requires
            ts.inv(),
        ensures
            r.wf(),
            r.spec_estimator() == ts,
            r.spec_last_sender() is None,
            r.spec_last_ping() == 0,
            r.spec_ping_interval() == ping_interval_ms,
    {
        DefaultSyncController { ts, last_sender: None, last_ping_ms: 0, ping_interval_ms }
    }

    /// Remembers `addr` as the peer to ping.
    pub fn register_sender(&mut self, addr: A)
        ensures
            final(self).spec_last_sender() == Some(addr),
            final(self).spec_estimator() == old(self).spec_estimator(),
            final(self).spec_last_ping() == old(self).spec_last_ping(),
            final(self).spec_ping_interval() == old(self).spec_ping_interval(),
            final(self).wf() == old(self).wf(),
    {
        self.last_sender = Some(addr);
    }

    /// Feeds a pong received at `t3_ms` to the estimator.
    pub fn on_pong(&mut self, t0_ms: u64, t1_ms: u64, t2_ms: u64, t3_ms: u64)
        requires
            old(self).wf(),
        ensures
            final(self).wf(),
            final(self).spec_last_sender() == old(self).spec_last_sender(),
            final(self).spec_last_ping() == old(self).spec_last_ping(),
            final(self).spec_ping_interval() == old(self).spec_ping_interval(),
            final(self).spec_estimator().follows(
                old(self).spec_estimator(),
                t0_ms,
                t1_ms,
                t2_ms,
                t3_ms,
            ),
    {
        let _ = self.ts.update(t0_ms, t1_ms, t2_ms, t3_ms);
    }

    /// The latency of a frame stamped `sent_ts_ms`, seen at `now_ms`.
    pub fn compute_latency_ms(&self, sent_ts_ms: u64, now_ms: u64) -> (r: u64)
        requires
            self.wf(),
        ensures
            r == spec_latency_ms(now_ms, self.spec_estimator().estimate().offset_us as int, sent_ts_ms),
    {
        let offset_us = self.ts.state().offset_us;
        let offset_ms = div_toward_zero(offset_us, 1000);
        proof {
            lemma_trunc_div_shrinks(offset_us as int, 1000);
        }
        let adj: i128 = now_ms as i128 - offset_ms;
        let adj: u64 = if adj < 0 {
            0
        } else if adj > u64::MAX as i128 {
            u64::MAX
        } else {
            adj as u64
        };
        adj.saturating_sub(sent_ts_ms)
    }

    /// The estimated offset of the peer's clock, in microseconds.
    pub fn offset_us(&self) -> (r: i128)
        requires
            self.wf(),
        ensures
            r == self.spec_estimator().estimate().offset_us,
    {
        self.ts.state().offset_us
    }

    /// The estimated drift, in thousandths of a ppm.
    pub fn drift_milli_ppm(&self) -> (r: i128)
        requires
            self.wf(),
        ensures
            r == self.spec_estimator().estimate().drift_milli_ppm,
    {
        self.ts.state().drift_milli_ppm
    }

    /// The current estimate.
    pub fn state(&self) -> (r: TimeSyncState)
        requires
            self.wf(),
        ensures
            r == self.spec_estimator().estimate(),
    {
        self.ts.state()
    }

    /// The ping to send now, with its destination: due when a peer is known
    /// and at least the ping interval has passed since the last ping.
    pub fn maybe_send_ping(&mut self, now_ms: u64) -> (r: Option<(A, SyncMessage)>)
        ensures
            ({
                let due = old(self).spec_last_sender() is Some && (now_ms < old(self).spec_last_ping() ==> 0
                    >= old(self).spec_ping_interval()) && (now_ms >= old(self).spec_last_ping() ==> now_ms
                    - old(self).spec_last_ping() >= old(self).spec_ping_interval());
                &&& due ==> r == Some((old(self).spec_last_sender()->0, SyncMessage::Ping { t0_ms: now_ms }))
                    && final(self).spec_last_ping() == now_ms
                &&& !due ==> r is None && final(self).spec_last_ping() == old(self).spec_last_ping()
            }),
            final(self).spec_last_sender() == old(self).spec_last_sender(),
            final(self).spec_estimator() == old(self).spec_estimator(),
            final(self).spec_ping_interval() == old(self).spec_ping_interval(),
            final(self).wf() == old(self).wf(),
    {
        match self.last_sender {
            Some(addr) => {
                if now_ms.saturating_sub(self.last_ping_ms) >= self.ping_interval_ms {
                    self.last_ping_ms = now_ms;
                    Some((addr, SyncMessage::Ping { t0_ms: now_ms }))
                } else {
                    None
                }
            },
            None => None,
        }
    }
}

impl<A: Copy> DefaultSyncController<A, TimeSyncEstimator> {
    /// A controller around a fresh estimator with smoothing factors `alpha`
    /// and `beta`, in thousandths.
    pub fn with_default_estimator(alpha: u32, beta: u32, ping_interval_ms: u64) -> (r: Self)
        requires
            alpha <= FACTOR_SCALE,
            beta <= FACTOR_SCALE,
        ensures
            r.wf(),
            r.spec_estimator().spec_alpha() == alpha,
            r.spec_estimator().spec_beta() == beta,
            r.spec_estimator().spec_last_offset() is None,
            r.spec_estimator().spec_state() == (TimeSyncState {
                offset_us: 0,
                delay_us: 0,
                drift_milli_ppm: 0,
            }),
            r.spec_last_sender() is None,
            r.spec_last_ping() == 0,
            r.spec_ping_interval() == ping_interval_ms,
    {
        DefaultSyncController::new(TimeSyncEstimator::new(alpha, beta), ping_interval_ms)
    }
}

} // verus!
